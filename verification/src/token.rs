//! The identity of a session: a channel within a connection.
//!
//! An identity is written as the canonical text of the connection's UUID, a
//! slash, and the channel's name. Since the text of a UUID holds no slash, the
//! first slash of the string is the separator, whatever the name holds.

use vstd::prelude::*;
use vstd::std_specs::iter::IteratorSpec;
use vstd::string::*;
use crate::error::DecodeError;
use crate::uuid_text::{lemma_uuid_text, uuid_from_text, uuid_text, uuid_to_text, uuid_value};

verus! {

/// Identifies one channel of one connection. It never changes once made.
#[derive(Debug, PartialEq, Eq, Hash)]
pub struct ShellToken {
    /// The UUID of the connection, as a 128-bit number.
    pub connection_id: u128,
    /// The name of the channel within the connection.
    pub channel_id: String,
}

/// The mathematical value of a [`ShellToken`].
pub struct TokenView {
    pub connection_id: u128,
    pub channel_id: Seq<char>,
}

impl View for ShellToken {
    type V = TokenView;

    open spec fn view(&self) -> TokenView {
        TokenView { connection_id: self.connection_id, channel_id: self.channel_id@ }
    }
}

impl Clone for ShellToken {
    fn clone(&self) -> (copy: ShellToken)
        ensures
            copy@ == self@,
    {
        ShellToken { connection_id: self.connection_id, channel_id: self.channel_id.clone() }
    }
}

impl TokenView {
    /// The canonical string of the identity.
    pub open spec fn encoding(self) -> Seq<char> {
        uuid_text(self.connection_id) + seq!['/'] + self.channel_id
    }
}

/// The identity that a string denotes: what stands before its first slash is
/// a UUID, and what stands behind it, which is not empty, is the channel's
/// name. A string of any other shape denotes nothing.
pub open spec fn decoding(s: Seq<char>) -> Option<TokenView> {
    match s.index_of_first('/') {
        Some(at) => match uuid_value(s.take(at)) {
            Some(connection_id) => if at + 1 < s.len() {
                Some(TokenView { connection_id, channel_id: s.skip(at + 1) })
            } else {
                None
            },
            None => None,
        },
        None => None,
    }
}

/// A string whose first slash stands at `at` denotes the identity of the
/// UUID before the slash and of the name behind it, if there is such a UUID
/// and the name is not empty, and nothing otherwise.
pub proof fn lemma_decoding_at(s: Seq<char>, at: int)
    requires
        0 <= at < s.len(),
        s[at] == '/',
        forall|i: int| 0 <= i < at ==> s[i] != '/',
    ensures
        decoding(s) == match uuid_value(s.take(at)) {
            Some(connection_id) => if at + 1 < s.len() {
                Some(TokenView { connection_id, channel_id: s.skip(at + 1) })
            } else {
                None
            },
            None => None,
        },
{
    s.index_of_first_ensures('/');
    let first: int = s.index_of_first('/')->0;
    if first < at {
        assert(s[first] != '/');
    }
}

/// Decoding is a left inverse of encoding: the canonical string of an
/// identity whose channel has a name denotes that identity.
pub proof fn lemma_decode_encode(token: TokenView)
    requires
        token.channel_id.len() > 0,
    ensures
        decoding(token.encoding()) == Some(token),
{
    let s = token.encoding();
    let id = uuid_text(token.connection_id);
    lemma_uuid_text(token.connection_id);
    assert forall|i: int| 0 <= i < 36 implies s[i] != '/' by {
        assert(s[i] == id[i]);
    }
    lemma_decoding_at(s, 36);
    assert(s.take(36) =~= id);
    assert(s.skip(37) =~= token.channel_id);
}

/// Encoding is injective: two identities with the same canonical string are
/// the same identity.
pub proof fn lemma_encode_injective(a: TokenView, b: TokenView)
    requires
        a.encoding() == b.encoding(),
    ensures
        a == b,
{
    lemma_uuid_text(a.connection_id);
    lemma_uuid_text(b.connection_id);
    assert(a.encoding().take(36) =~= uuid_text(a.connection_id));
    assert(b.encoding().take(36) =~= uuid_text(b.connection_id));
    assert(a.encoding().skip(37) =~= a.channel_id);
    assert(b.encoding().skip(37) =~= b.channel_id);
}

/// An identity that a string denotes has a channel name that is not empty.
pub proof fn lemma_decoding_names_channel(s: Seq<char>)
    ensures
        decoding(s) matches Some(token) ==> token.channel_id.len() > 0,
{
    s.index_of_first_ensures('/');
}

/// The empty string, a string without a slash, and a string whose first
/// slash stands behind something that is no UUID denote no identity.
pub proof fn lemma_decoding_rejects(s: Seq<char>)
    ensures
        s.len() == 0 ==> decoding(s) is None,
        !s.contains('/') ==> decoding(s) is None,
        forall|at: int|
            0 <= at < s.len() && s[at] == '/' && !s.take(at).contains('/') && uuid_value(
                s.take(at),
            ) is None ==> decoding(s) is None,
{
    s.index_of_first_ensures('/');
    assert forall|at: int|
        0 <= at < s.len() && s[at] == '/' && !s.take(at).contains('/') && uuid_value(
            s.take(at),
        ) is None implies decoding(s) is None by {
        assert forall|i: int| 0 <= i < at implies s[i] != '/' by {
            assert(s.take(at)[i] == s[i]);
        }
        lemma_decoding_at(s, at);
    }
}

impl ShellToken {
    /// Writes the identity as its canonical string.
    pub fn encode(&self) -> (text: String)
        ensures
            text@ == self@.encoding(),
    {
        let mut text = uuid_to_text(self.connection_id);
        text.append("/");
        text.append(self.channel_id.as_str());
        proof {
            reveal_strlit("/");
            assert("/"@ =~= seq!['/']);
        }
        text
    }

    /// Reads an identity from its canonical string, and fails with
    /// `Malformed` on every string that denotes none.
    pub fn decode(text: &str) -> (r: Result<ShellToken, DecodeError>)
        ensures
            match r {
                Ok(token) => decoding(text@) == Some(token@),
                Err(e) => decoding(text@) is None && e == DecodeError::Malformed,
            },
    {
        let n: usize = text.unicode_len();
        let mut at: usize = 0;
        let mut rest = text.chars();
        proof {
            text@.index_of_first_ensures('/');
        }
        loop
            invariant_except_break
                rest.remaining() == text@.skip(at as int),
            invariant
                n == text@.len(),
                at <= n,
                forall|j: int| 0 <= j < at ==> text@[j] != '/',
            ensures
                at <= n,
                at < n ==> text@[at as int] == '/',
                forall|j: int| 0 <= j < at ==> text@[j] != '/',
            decreases n - at,
        {
            match rest.next() {
                Some(c) => {
                    if c == '/' {
                        break ;
                    }
                    at = at + 1;
                },
                None => {
                    break ;
                },
            }
        }
        if at >= n || n - at < 2 {
            return Err(DecodeError::Malformed);
        }
        let id = uuid_from_text(text.substring_char(0, at));
        match id {
            Some(connection_id) => Ok(
                ShellToken {
                    connection_id,
                    channel_id: String::from_str(text.substring_char(at + 1, n)),
                },
            ),
            None => Err(DecodeError::Malformed),
        }
    }
}

} // verus!
