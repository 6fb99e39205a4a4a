use session_manager::error::DecodeError;
use session_manager::token::ShellToken;

const ID: u128 = 0xa1a2a3a4b1b2c1c2d1d2d3d4d5d6d7d8;
const ID_TEXT: &str = "a1a2a3a4-b1b2-c1c2-d1d2-d3d4d5d6d7d8";

fn token(connection_id: u128, channel_id: &str) -> ShellToken {
    ShellToken { connection_id, channel_id: String::from(channel_id) }
}

#[test]
fn encode_writes_uuid_slash_channel() {
    assert_eq!(token(ID, "0").encode(), format!("{}/0", ID_TEXT));
}

#[test]
fn encode_pads_small_uuids_with_zeros() {
    assert_eq!(token(0x2a, "shell").encode(), "00000000-0000-0000-0000-00000000002a/shell");
    assert_eq!(token(0, "x").encode(), "00000000-0000-0000-0000-000000000000/x");
    assert_eq!(token(u128::MAX, "x").encode(), "ffffffff-ffff-ffff-ffff-ffffffffffff/x");
}

#[test]
fn encode_agrees_with_the_uuid_crate() {
    let id = uuid::Uuid::parse_str("550e8400-e29b-41d4-a716-446655440000").unwrap();
    assert_eq!(token(id.as_u128(), "7").encode(), "550e8400-e29b-41d4-a716-446655440000/7");
}

#[test]
fn decode_reads_what_encode_wrote() {
    let cases = [(ID, "0"), (0, "a"), (u128::MAX, "channel-17"), (1 << 64, "émigré"), (ID, " ")];
    for (id, channel) in cases {
        let written = token(id, channel);
        assert_eq!(ShellToken::decode(&written.encode()), Ok(written));
    }
}

#[test]
fn decode_gives_the_number_of_the_uuid() {
    let decoded = ShellToken::decode("a1a2a3a4-b1b2-c1c2-d1d2-d3d4d5d6d7d8/12").unwrap();
    assert_eq!(decoded.connection_id, ID);
    assert_eq!(decoded.channel_id, "12");
}

#[test]
fn decode_keeps_slashes_in_the_channel_name() {
    let written = token(ID, "a/b//c");
    assert_eq!(written.encode(), format!("{}/a/b//c", ID_TEXT));
    assert_eq!(ShellToken::decode(&written.encode()), Ok(written));
    assert_eq!(ShellToken::decode(&format!("{}//", ID_TEXT)), Ok(token(ID, "/")));
}

#[test]
fn decode_rejects_text_that_is_no_uuid() {
    assert_eq!(ShellToken::decode("not-a-uuid/x"), Err(DecodeError::Malformed));
}

#[test]
fn decode_rejects_text_without_slash() {
    assert_eq!(ShellToken::decode("no-slash-here"), Err(DecodeError::Malformed));
    assert_eq!(ShellToken::decode(ID_TEXT), Err(DecodeError::Malformed));
}

#[test]
fn decode_rejects_the_empty_string() {
    assert_eq!(ShellToken::decode(""), Err(DecodeError::Malformed));
}

#[test]
fn decode_rejects_a_missing_segment() {
    assert_eq!(ShellToken::decode(&format!("{}/", ID_TEXT)), Err(DecodeError::Malformed));
    assert_eq!(ShellToken::decode("/x"), Err(DecodeError::Malformed));
    assert_eq!(ShellToken::decode("/"), Err(DecodeError::Malformed));
}

#[test]
fn decode_rejects_damaged_uuids() {
    for text in [
        "a1a2a3a4-b1b2-c1c2-d1d2-d3d4d5d6d7d/x",
        "a1a2a3a4-b1b2-c1c2-d1d2-d3d4d5d6d7d8a/x",
        "a1a2a3a4-b1b2-c1c2-d1d2-d3d4d5d6d7dg/x",
        "a1a2a3a4b-1b2-c1c2-d1d2-d3d4d5d6d7d8/x",
        "a1a2a3a4-b1b2-c1c2-d1d2_d3d4d5d6d7d8/x",
        "{a1a2a3a4-b1b2-c1c2-d1d2-d3d4d5d6d7d8)/x",
        "{a1a2a3a4b1b2c1c2d1d2d3d4d5d6d7d8}/x",
        "urn-uuid:a1a2a3a4-b1b2-c1c2-d1d2-d3d4d5d6d7d8/x",
        "a1a2a3a4-b1b2-c1c2-d1d2-d3d4d5d6d7é8/x",
        "é1a2a3a4b1b2c1c2d1d2d3d4d5d6d7d8/x",
        " a1a2a3a4-b1b2-c1c2-d1d2-d3d4d5d6d7d8/x",
    ] {
        assert_eq!(ShellToken::decode(text), Err(DecodeError::Malformed), "{}", text);
    }
}

#[test]
fn decode_accepts_every_shape_of_uuid() {
    for text in [
        "a1a2a3a4b1b2c1c2d1d2d3d4d5d6d7d8/x",
        "A1A2A3A4-B1B2-C1C2-D1D2-D3D4D5D6D7D8/x",
        "a1A2a3A4-b1B2-c1C2-d1D2-d3D4d5D6d7D8/x",
        "{a1a2a3a4-b1b2-c1c2-d1d2-d3d4d5d6d7d8}/x",
        "urn:uuid:a1a2a3a4-b1b2-c1c2-d1d2-d3d4d5d6d7d8/x",
        "URN:UUID:a1a2a3a4-b1b2-c1c2-d1d2-d3d4d5d6d7d8/x",
        "Urn:uuiD:A1A2A3A4-B1B2-C1C2-D1D2-D3D4D5D6D7D8/x",
    ] {
        assert_eq!(ShellToken::decode(text), Ok(token(ID, "x")), "{}", text);
    }
}

#[test]
fn decode_reads_digits_most_significant_first() {
    assert_eq!(
        ShellToken::decode("00000000-0000-0000-0000-000000000010/x"),
        Ok(token(16, "x"))
    );
    assert_eq!(
        ShellToken::decode("10000000-0000-0000-0000-000000000000/x"),
        Ok(token(1 << 124, "x"))
    );
    assert_eq!(
        ShellToken::decode("0123456789abcdefABCDEF0000000000/x"),
        Ok(token(0x0123456789abcdefabcdef0000000000, "x"))
    );
}

#[test]
fn encode_tells_identities_apart() {
    assert_ne!(token(ID, "1").encode(), token(ID, "2").encode());
    assert_ne!(token(ID, "1").encode(), token(ID + 1, "1").encode());
}

#[test]
fn clone_keeps_both_fields() {
    let written = token(ID, "nine");
    assert_eq!(written.clone(), written);
}

fn digit(c: char) -> Option<u128> {
    match c {
        '0'..='9' => Some(c as u128 - '0' as u128),
        'a'..='f' => Some(c as u128 - 'a' as u128 + 10),
        'A'..='F' => Some(c as u128 - 'A' as u128 + 10),
        _ => None,
    }
}

fn number(digits: &[char]) -> Option<u128> {
    let mut value: u128 = 0;
    for c in digits {
        value = value.checked_mul(16)?.checked_add(digit(*c)?)?;
    }
    Some(value)
}

fn unhyphenated(s: &[char]) -> Option<Vec<char>> {
    if s.len() == 36 && s[8] == '-' && s[13] == '-' && s[18] == '-' && s[23] == '-' {
        Some([&s[0..8], &s[9..13], &s[14..18], &s[19..23], &s[24..36]].concat())
    } else {
        None
    }
}

fn is_urn_prefix(s: &[char]) -> bool {
    let matches = |(c, low): (&char, char)| *c == low || *c == low.to_ascii_uppercase();
    s.len() == 9 && s.iter().zip("urn:uuid:".chars()).all(matches)
}

fn denoted(text: &str) -> Option<u128> {
    let s: Vec<char> = text.chars().collect();
    let digits = if s.len() == 32 {
        Some(s)
    } else if s.len() == 36 {
        unhyphenated(&s)
    } else if s.len() == 38 && s[0] == '{' && s[37] == '}' {
        unhyphenated(&s[1..37])
    } else if s.len() == 45 && is_urn_prefix(&s[0..9]) {
        unhyphenated(&s[9..45])
    } else {
        None
    };
    number(&digits?)
}

struct Noise(u64);

impl Noise {
    fn below(&mut self, bound: usize) -> usize {
        self.0 = self.0.wrapping_mul(6364136223846793005).wrapping_add(1442695040888963407);
        ((self.0 >> 33) % bound as u64) as usize
    }
}

const ALPHABET: &[char] = &[
    '0', '1', '7', '9', 'a', 'b', 'f', 'A', 'C', 'F', 'g', 'G', '-', '-', '{', '}', 'u', 'r', 'n',
    ':', 'i', 'd', 'U', 'R', 'N', 'I', 'D', ' ', '\u{e9}', '\u{4e2d}', '\u{ff10}', '\0', '_',
];

fn damaged(noise: &mut Noise) -> String {
    let shapes = [
        "a1a2a3a4b1b2c1c2d1d2d3d4d5d6d7d8",
        "A1a2a3A4-b1b2-C1c2-d1D2-d3d4d5d6D7d8",
        "{a1a2a3a4-b1b2-c1c2-d1d2-d3d4d5d6d7d8}",
        "urn:uuid:a1a2a3a4-b1b2-c1c2-d1d2-d3d4d5d6d7d8",
        "URN:uuid:00000000-0000-0000-0000-000000000000",
    ];
    let mut s: Vec<char> = shapes[noise.below(shapes.len())].chars().collect();
    for _ in 0..noise.below(4) {
        let at = noise.below(s.len() + 1);
        let c = ALPHABET[noise.below(ALPHABET.len())];
        match noise.below(3) {
            0 if at < s.len() => s[at] = c,
            1 if at < s.len() => {
                s.remove(at);
            }
            _ => s.insert(at, c),
        }
    }
    s.into_iter().filter(|c| *c != '/').collect()
}

#[test]
fn decode_accepts_just_the_four_shapes_of_uuid() {
    let mut noise = Noise(17);
    let (mut denoting, mut others) = (0, 0);
    for _ in 0..20000 {
        let uuid = damaged(&mut noise);
        let found = ShellToken::decode(&format!("{}/x", uuid));
        match denoted(&uuid) {
            Some(id) => {
                assert_eq!(found, Ok(token(id, "x")), "{:?}", uuid);
                assert_eq!(ShellToken::decode(&token(id, "x").encode()), Ok(token(id, "x")));
                denoting += 1;
            }
            None => {
                assert_eq!(found, Err(DecodeError::Malformed), "{:?}", uuid);
                others += 1;
            }
        }
    }
    assert!(denoting > 2000 && others > 2000, "{} {}", denoting, others);
}

#[test]
fn decode_accepts_just_the_right_lengths() {
    let mut noise = Noise(23);
    for length in 0..50 {
        for _ in 0..200 {
            let uuid: String = (0..length)
                .map(|_| ALPHABET[noise.below(14)])
                .collect();
            let found = ShellToken::decode(&format!("{}/x", uuid));
            match denoted(&uuid) {
                Some(id) => assert_eq!(found, Ok(token(id, "x")), "{:?}", uuid),
                None => assert_eq!(found, Err(DecodeError::Malformed), "{:?}", uuid),
            }
        }
    }
}

#[test]
fn encode_writes_digits_most_significant_first() {
    let mut noise = Noise(29);
    for _ in 0..2000 {
        let mut id: u128 = 0;
        for _ in 0..4 {
            id = (id << 32) | noise.below(1 << 32) as u128;
        }
        let simple = format!("{:032x}", id);
        let text = format!(
            "{}-{}-{}-{}-{}/c",
            &simple[0..8],
            &simple[8..12],
            &simple[12..16],
            &simple[16..20],
            &simple[20..32]
        );
        assert_eq!(token(id, "c").encode(), text);
        assert_eq!(ShellToken::decode(&text), Ok(token(id, "c")));
    }
}
