//! Shell tokens: the caller-facing identity of one shell, and its wire form
//! `"<connection-id>/<channel-id>"`.

use vstd::prelude::*;
use vstd::string::*;

verus! {

/// Addresses one shell: the identifier of its connection (a UUID, held as its
/// 128-bit value) and the identifier of its channel on that connection.
#[derive(Clone, Debug, Eq, PartialEq, Hash)]
pub struct ShellToken {
    pub connection_id: u128,
    pub channel_id: String,
}

/// The mathematical content of a token.
pub struct TokenView {
    pub connection_id: u128,
    pub channel_id: Seq<char>,
}

/// Why a string is not the wire form of a token.
#[derive(Clone, Copy, Debug, PartialEq, Eq, Structural)]
pub enum TokenError {
    /// The string holds no `/`.
    MissingDelimiter,
    /// What stands before the first `/` is not a UUID.
    MalformedConnectionId,
}

impl View for ShellToken {
    type V = TokenView;

    open spec fn view(&self) -> TokenView {
        TokenView { connection_id: self.connection_id, channel_id: self.channel_id@ }
    }
}

/// The lower-case hexadecimal digit for a value below sixteen.
pub open spec fn hex_digit(value: int) -> char {
    seq!['0', '1', '2', '3', '4', '5', '6', '7', '8', '9', 'a', 'b', 'c', 'd', 'e', 'f'][value]
}

/// The `index`-th of the 32 hexadecimal digits of `id`, most significant
/// first.
pub open spec fn nibble(id: u128, index: int) -> int {
    ((id as int) / vstd::arithmetic::power::pow(16, (31 - index) as nat)) % 16
}

/// The character at `position` of the hyphenated form of `id`: hyphens at 8,
/// 13, 18 and 23, the 32 digits in order everywhere else.
pub open spec fn hyphenated_char(id: u128, position: int) -> char {
    if position == 8 || position == 13 || position == 18 || position == 23 {
        '-'
    } else if position < 8 {
        hex_digit(nibble(id, position))
    } else if position < 13 {
        hex_digit(nibble(id, position - 1))
    } else if position < 18 {
        hex_digit(nibble(id, position - 2))
    } else if position < 23 {
        hex_digit(nibble(id, position - 3))
    } else {
        hex_digit(nibble(id, position - 4))
    }
}

/// The canonical text of a UUID: 36 characters, lower case, in groups of
/// 8-4-4-4-12 digits.
pub open spec fn hyphenated(id: u128) -> Seq<char> {
    Seq::new(36, |position: int| hyphenated_char(id, position))
}

/// What `uuid::Uuid::parse_str` makes of a text: the 128-bit value of the
/// UUID it reads, or `None` where it reports an error.
pub uninterp spec fn uuid_parsed(text: Seq<char>) -> Option<u128>;

/// The wire form of a token.
pub open spec fn wire_form(token: TokenView) -> Seq<char> {
    hyphenated(token.connection_id) + seq!['/'] + token.channel_id
}

/// What a wire string denotes. The string is split at its first `/`: what
/// stands before it must be a UUID, what follows it is the channel identifier,
/// further slashes included.
pub open spec fn parsed(text: Seq<char>) -> Result<TokenView, TokenError> {
    match text.index_of_first('/') {
        None => Err(TokenError::MissingDelimiter),
        Some(at) => match uuid_parsed(text.take(at)) {
            None => Err(TokenError::MalformedConnectionId),
            Some(connection_id) => Ok(
                TokenView { connection_id, channel_id: text.skip(at + 1) },
            ),
        },
    }
}

/// `uuid::Uuid::parse_str`, with the UUID handed back as its 128-bit value
/// (`Uuid::as_u128`) and the error dropped.
#[verifier::external_body]
fn parse_uuid(text: &str) -> (id: Option<u128>)
    ensures
        id == uuid_parsed(text@),
{
    match uuid::Uuid::parse_str(text) {
        Ok(id) => Some(id.as_u128()),
        Err(_) => None,
    }
}

/// The `Display` form of the UUID with the given 128-bit value
/// (`Uuid::from_u128`, then `to_string`): the hyphenated lower-case text,
/// which `Uuid::parse_str` reads back as the same UUID.
#[verifier::external_body]
fn format_uuid(id: u128) -> (text: String)
    ensures
        text@ == hyphenated(id),
        uuid_parsed(text@) == Some(id),
{
    uuid::Uuid::from_u128(id).to_string()
}

/// No UUID text holds a slash.
pub proof fn lemma_hyphenated_has_no_slash(id: u128)
    ensures
        hyphenated(id).len() == 36,
        !hyphenated(id).contains('/'),
{
    assert forall|position: int| 0 <= position < 36 implies hyphenated(id)[position] != '/' by {
        let index = if position < 8 {
            position
        } else if position < 13 {
            position - 1
        } else if position < 18 {
            position - 2
        } else if position < 23 {
            position - 3
        } else {
            position - 4
        };
        let value = nibble(id, index);
        assert(0 <= value < 16);
        assert(hex_digit(value) != '/');
    }
}

/// The wire form of a token is cut at position 36, between the UUID and the
/// channel identifier.
pub proof fn lemma_wire_form_splits(token: TokenView)
    ensures
        wire_form(token).index_of_first('/') == Some(36int),
        wire_form(token).take(36) == hyphenated(token.connection_id),
        wire_form(token).skip(37) == token.channel_id,
{
    lemma_hyphenated_has_no_slash(token.connection_id);
    lemma_first_slash(wire_form(token), hyphenated(token.connection_id), token.channel_id);
}

impl ShellToken {
    /// The token as one string, `"<connection-id>/<channel-id>"`, the UUID in
    /// its hyphenated lower-case form. Reading the string back gives the
    /// token again.
    pub fn serialize(&self) -> (text: String)
        ensures
            text@ == wire_form(self@),
            parsed(text@) == Ok::<TokenView, TokenError>(self@),
            parsed(text@) matches Ok(read) && wire_form(read) == text@,
    {
        let mut text = format_uuid(self.connection_id);
        proof {
            reveal_strlit("/");
            lemma_round_trip(self@);
        }
        text.append("/");
        text.append(self.channel_id.as_str());
        assert(text@ =~= wire_form(self@)) by {
            assert("/"@ =~= seq!['/']);
        }
        text
    }

    /// Reads a token from its wire form. Fails when the string holds no `/`,
    /// or when what stands before the first `/` is not a UUID; never
    /// substitutes a default.
    pub fn deserialize(value: &str) -> (token: Result<ShellToken, TokenError>)
        ensures
            match token {
                Ok(t) => parsed(value@) == Ok::<TokenView, TokenError>(t@),
                Err(e) => parsed(value@) == Err::<TokenView, TokenError>(e),
            },
    {
        proof {
            value@.index_of_first_ensures('/');
        }
        match split_wire(value) {
            None => Err(TokenError::MissingDelimiter),
            Some((head, tail)) => {
                proof {
                    lemma_first_slash(value@, head@, tail@);
                }
                ShellToken::from_parts(parse_uuid(head), tail)
            },
        }
    }

    /// The token for a connection identifier as it was read, or not, from the
    /// first part of a wire string, and the channel identifier that followed
    /// it.
    pub fn from_parts(connection_id: Option<u128>, channel_id: &str) -> (token: Result<
        ShellToken,
        TokenError,
    >)
        ensures
            match connection_id {
                Some(id) => token matches Ok(t) && t@ == (TokenView {
                    connection_id: id,
                    channel_id: channel_id@,
                }),
                None => token == Err::<ShellToken, TokenError>(TokenError::MalformedConnectionId),
            },
    {
        match connection_id {
            None => Err(TokenError::MalformedConnectionId),
            Some(connection_id) => Ok(ShellToken { connection_id, channel_id: channel_id.to_owned() }),
        }
    }

    /// A second copy of the token.
    pub fn duplicate(&self) -> (copy: ShellToken)
        ensures
            copy == *self,
    {
        ShellToken { connection_id: self.connection_id, channel_id: self.channel_id.clone() }
    }

    /// Whether two tokens address the same shell.
    pub fn same(&self, other: &ShellToken) -> (same: bool)
        ensures
            same == (self@ == other@),
    {
        let same = self.connection_id == other.connection_id && self.channel_id == other.channel_id;
        assert(same ==> self@.channel_id =~= other@.channel_id);
        same
    }
}

/// Splits a string at its first `/`: what stands before it and what follows
/// it, or `None` where the string holds no `/`.
pub fn split_wire(value: &str) -> (parts: Option<(&str, &str)>)
    ensures
        match parts {
            None => !value@.contains('/'),
            Some((head, tail)) => value@ == head@ + seq!['/'] + tail@ && !head@.contains('/'),
        },
{
    broadcast use vstd::string::group_string_axioms;

    let length = value.unicode_len();
    let mut at: usize = 0;
    let mut found = false;
    for c in it: value.chars()
        invariant
            it.seq() == value@,
            length == value@.len(),
            found ==> at < it.index() && value@[at as int] == '/',
            !found ==> at == it.index(),
            forall|j: int| 0 <= j < at ==> value@[j] != '/',
    {
        assert(c == value@[it.index()]);
        if !found {
            if c == '/' {
                found = true;
            } else {
                at = at + 1;
            }
        }
    }
    if !found {
        return None;
    }
    let head = value.substring_char(0, at);
    let tail = value.substring_char(at + 1, length);
    assert(value@ =~= head@ + seq!['/'] + tail@);
    Some((head, tail))
}

/// Where the UUID text of a token's connection identifier reads back as
/// that identifier, the wire form of the token reads back as the token, and
/// writing what was read gives the same string again.
pub proof fn lemma_round_trip(token: TokenView)
    requires
        uuid_parsed(hyphenated(token.connection_id)) == Some(token.connection_id),
    ensures
        parsed(wire_form(token)) == Ok::<TokenView, TokenError>(token),
        parsed(wire_form(token)) matches Ok(read) && wire_form(read) == wire_form(token),
{
    lemma_wire_form_splits(token);
}

/// A string cut at a slash, with no slash before the cut, is cut at its first
/// slash.
pub proof fn lemma_first_slash(text: Seq<char>, head: Seq<char>, tail: Seq<char>)
    requires
        text == head + seq!['/'] + tail,
        !head.contains('/'),
    ensures
        text.index_of_first('/') == Some(head.len() as int),
        text.take(head.len() as int) == head,
        text.skip(head.len() as int + 1) == tail,
{
    text.index_of_first_ensures('/');
    let cut = head.len() as int;
    assert(text[cut] == '/');
    assert(text.contains('/'));
    let at = text.index_of_first('/')->0;
    if at < cut {
        assert(head[at] == '/');
    }
    if at > cut {
        assert(text[cut] != '/');
    }
    assert(text.take(cut) =~= head);
    assert(text.skip(cut + 1) =~= tail);
}

/// A string without a slash, or with something other than a UUID before its
/// first slash, denotes no token; every other string denotes one.
pub proof fn lemma_parsed_fails_exactly(text: Seq<char>)
    ensures
        !text.contains('/') ==> parsed(text) == Err::<TokenView, TokenError>(
            TokenError::MissingDelimiter,
        ),
        text.contains('/') && uuid_parsed(text.take(text.index_of_first('/')->0)) is None
            ==> parsed(text) == Err::<TokenView, TokenError>(TokenError::MalformedConnectionId),
        text.contains('/') && uuid_parsed(text.take(text.index_of_first('/')->0)) is Some
            ==> parsed(text) is Ok,
{
    text.index_of_first_ensures('/');
}

} // verus!
