use vstd::prelude::*;
use vstd::string::{StrSliceExecFns, StringExecFns, StringSliceAdditionalSpecFns};
use crate::config::{
    parse_table, table_get_text, table_insert_text, table_new, table_strings, table_to_text,
    toml_strings_of, toml_text_of,
};
use crate::err::Error;
use crate::json::{
    decode_definitions, decode_synonyms, definitions_of, synonyms_of, DecodeError, Json,
};
use crate::operations::{segment_of, DefinitionsResponse, Modus, SynonymsResponse};

verus! {

/// The endpoint that every lookup URL starts with.
pub open spec fn base_url() -> Seq<char> {
    "https://wordsapiv1.p.rapidapi.com/words/"@
}

/// The service host, sent as a header with every request.
pub open spec fn api_host() -> Seq<char> {
    "wordsapiv1.p.rapidapi.com"@
}

/// Whether a byte stands for itself in a URL path: an ASCII letter, digit,
/// `-`, `.`, `_` or `~`.
pub open spec fn is_unreserved(b: u8) -> bool {
    (65 <= b <= 90) || (97 <= b <= 122) || (48 <= b <= 57) || b == 45 || b == 46 || b == 95
        || b == 126
}

/// The upper-case hexadecimal digit of a value below 16.
pub open spec fn hex_digit(n: u8) -> char {
    if n < 10 {
        ((48 + n) as u8) as char
    } else {
        ((55 + n) as u8) as char
    }
}

/// A byte in a URL path: itself if unreserved, else `%` and two hex digits.
pub open spec fn escape_byte(b: u8) -> Seq<char> {
    if is_unreserved(b) {
        seq![b as char]
    } else {
        seq!['%', hex_digit(b / 16), hex_digit(b % 16)]
    }
}

/// The percent-escaped form of UTF-8 bytes, for one segment of a URL path.
pub open spec fn escape(bytes: Seq<u8>) -> Seq<char>
    decreases bytes.len(),
{
    if bytes.len() == 0 {
        Seq::empty()
    } else {
        escape(bytes.drop_last()) + escape_byte(bytes.last())
    }
}

/// The URL of a lookup: the endpoint, the escaped UTF-8 bytes of the word,
/// then the kind.
pub open spec fn url_of(word: Seq<u8>, modus: Modus) -> Seq<char> {
    base_url() + escape(word) + "/"@ + segment_of(modus)
}

/// Relies on `String::push`: the character is appended at the end.
#[verifier::external_body]
fn push_char(s: &mut String, c: char)
    ensures
        final(s)@ == old(s)@.push(c),
{
    s.push(c)
}

fn hex_char(n: u8) -> (r: char)
    requires
        n < 16,
    ensures
        r == hex_digit(n),
{
    if n < 10 {
        (48 + n) as char
    } else {
        (55 + n) as char
    }
}

/// Appends the percent-escaped form of `word`'s UTF-8 bytes to `out`.
fn append_escaped(out: &mut String, word: &str)
    ensures
        final(out)@ == old(out)@ + escape(word.spec_bytes()),
{
    let bytes = word.as_bytes();
    let ghost start = out@;
    let mut i: usize = 0;
    assert(bytes@.take(0) =~= Seq::<u8>::empty());
    assert(out@ =~= start + escape(bytes@.take(0)));
    while i < bytes.len()
        invariant
            i <= bytes@.len(),
            bytes@ == word.spec_bytes(),
            out@ == start + escape(bytes@.take(i as int)),
        decreases bytes@.len() - i,
    {
        let b = bytes[i];
        if (65 <= b && b <= 90) || (97 <= b && b <= 122) || (48 <= b && b <= 57) || b == 45
            || b == 46 || b == 95 || b == 126 {
            push_char(out, b as char);
        } else {
            push_char(out, '%');
            push_char(out, hex_char(b / 16));
            push_char(out, hex_char(b % 16));
        }
        proof {
            let t = bytes@.take(i as int + 1);
            assert(t.drop_last() =~= bytes@.take(i as int));
            assert(t.last() == b);
            assert(out@ =~= start + escape(t));
        }
        i = i + 1;
    }
    assert(bytes@.take(bytes@.len() as int) =~= bytes@);
}

/// The headers of a lookup: the API key and the service host.
pub open spec fn headers_of(key: Seq<char>) -> Seq<(Seq<char>, Seq<char>)> {
    seq![("x-rapidapi-key"@, key), ("x-rapidapi-host"@, api_host())]
}

/// An authenticated GET request, ready for the transport.
pub struct Request {
    pub url: String,
    pub headers: Vec<(String, String)>,
}

impl View for Request {
    type V = (Seq<char>, Seq<(Seq<char>, Seq<char>)>);

    open spec fn view(&self) -> Self::V {
        (self.url@, self.headers@.map_values(|h: (String, String)| (h.0@, h.1@)))
    }
}

/// Builds the GET request of a lookup. The word is escaped but not otherwise
/// checked: the service decides what is a word.
pub fn build_request(word: &str, modus: Modus, key: &str) -> (r: Request)
    ensures
        r@ == (url_of(word.spec_bytes(), modus), headers_of(key@)),
{
    let mut url = String::from_str("https://wordsapiv1.p.rapidapi.com/words/");
    append_escaped(&mut url, word);
    url.append("/");
    url.append(modus.as_str());
    let mut headers: Vec<(String, String)> = Vec::new();
    headers.push((String::from_str("x-rapidapi-key"), String::from_str(key)));
    headers.push(
        (String::from_str("x-rapidapi-host"), String::from_str("wordsapiv1.p.rapidapi.com")),
    );
    proof {
        reveal_strlit("https://wordsapiv1.p.rapidapi.com/words/");
        reveal_strlit("/");
        reveal_strlit("x-rapidapi-key");
        reveal_strlit("x-rapidapi-host");
        reveal_strlit("wordsapiv1.p.rapidapi.com");
        assert(url@ =~= url_of(word.spec_bytes(), modus));
        assert(headers@.map_values(|h: (String, String)| (h.0@, h.1@)) =~= headers_of(key@));
    }
    Request { url, headers }
}

/// What the transport brought back: the status, and the body when it is a
/// JSON document.
pub struct Reply {
    pub status: u16,
    pub body: Option<Json>,
}

/// Whether a status is a success (2xx).
pub open spec fn is_success(status: u16) -> bool {
    200 <= status < 300
}

/// The outcome of a synonyms lookup from its reply. A reply with an error
/// status is not decoded.
pub open spec fn synonyms_outcome(reply: Reply) -> Result<(Seq<char>, Seq<Seq<char>>), Error> {
    if !is_success(reply.status) {
        Err(Error::Status(reply.status))
    } else {
        match reply.body {
            None => Err(Error::Decode(DecodeError::Malformed)),
            Some(b) => match synonyms_of(b) {
                Ok(v) => Ok(v),
                Err(e) => Err(Error::Decode(e)),
            },
        }
    }
}

/// The outcome of a definitions lookup from its reply. A reply with an error
/// status is not decoded.
pub open spec fn definitions_outcome(reply: Reply) -> Result<
    (Seq<char>, Seq<(Seq<char>, Seq<char>)>),
    Error,
> {
    if !is_success(reply.status) {
        Err(Error::Status(reply.status))
    } else {
        match reply.body {
            None => Err(Error::Decode(DecodeError::Malformed)),
            Some(b) => match definitions_of(b) {
                Ok(v) => Ok(v),
                Err(e) => Err(Error::Decode(e)),
            },
        }
    }
}

/// The synonyms in the reply to a synonyms request.
pub fn synonyms(reply: &Reply) -> (r: Result<SynonymsResponse, Error>)
    ensures
        match r {
            Ok(s) => synonyms_outcome(*reply) == Ok::<(Seq<char>, Seq<Seq<char>>), Error>(s@),
            Err(e) => synonyms_outcome(*reply) == Err::<(Seq<char>, Seq<Seq<char>>), Error>(e),
        },
{
    if reply.status < 200 || reply.status >= 300 {
        return Err(Error::Status(reply.status));
    }
    match &reply.body {
        None => Err(Error::Decode(DecodeError::Malformed)),
        Some(b) => match decode_synonyms(b) {
            Ok(s) => Ok(s),
            Err(e) => Err(Error::Decode(e)),
        },
    }
}

/// The definitions in the reply to a definitions request.
pub fn definitions(reply: &Reply) -> (r: Result<DefinitionsResponse, Error>)
    ensures
        match r {
            Ok(d) => definitions_outcome(*reply) == Ok::<
                (Seq<char>, Seq<(Seq<char>, Seq<char>)>),
                Error,
            >(d@),
            Err(e) => definitions_outcome(*reply) == Err::<
                (Seq<char>, Seq<(Seq<char>, Seq<char>)>),
                Error,
            >(e),
        },
{
    if reply.status < 200 || reply.status >= 300 {
        return Err(Error::Status(reply.status));
    }
    match &reply.body {
        None => Err(Error::Decode(DecodeError::Malformed)),
        Some(b) => match decode_definitions(b) {
            Ok(d) => Ok(d),
            Err(e) => Err(Error::Decode(e)),
        },
    }
}

/// Where the key is kept: `.werd.toml` in the home directory.
pub open spec fn key_path_of(home: Seq<char>) -> Seq<char> {
    if home.len() == 0 || home.last() == '/' {
        home + ".werd.toml"@
    } else {
        home + "/.werd.toml"@
    }
}

/// The path of the key file, from the home directory if the host knows one.
pub fn get_key_path(home: Option<String>) -> (r: Result<String, Error>)
    ensures
        match home {
            None => r == Err::<String, Error>(Error::Path),
            Some(h) => r matches Ok(p) && p@ == key_path_of(h@),
        },
{
    match home {
        None => Err(Error::Path),
        Some(h) => {
            let n = h.as_str().unicode_len();
            let mut path = h.clone();
            if n == 0 || h.as_str().get_char(n - 1) == '/' {
                path.append(".werd.toml");
            } else {
                path.append("/.werd.toml");
            }
            proof {
                reveal_strlit(".werd.toml");
                reveal_strlit("/.werd.toml");
            }
            Ok(path)
        },
    }
}

/// The name of the one entry of the key file.
pub open spec fn key_field() -> Seq<char> {
    "key"@
}

/// The key that a key file's text holds: its string entry `key`.
pub open spec fn key_of_document(text: Seq<char>) -> Result<Seq<char>, Error> {
    match toml_strings_of(text) {
        None => Err(Error::ConfigFile),
        Some(m) => if m.contains_key(key_field()) {
            Ok(m[key_field()])
        } else {
            Err(Error::ConfigFile)
        },
    }
}

/// The key in a parsed key file: its `key` entry, which must be a string.
pub fn key_from_table(t: &toml::Table) -> (r: Result<String, Error>)
    ensures
        match r {
            Ok(s) => table_strings(*t).contains_key(key_field()) && s@ == table_strings(
                *t,
            )[key_field()],
            Err(e) => e == Error::ConfigFile && !table_strings(*t).contains_key(key_field()),
        },
{
    proof {
        reveal_strlit("key");
    }
    match table_get_text(t, "key") {
        Some(s) => Ok(s),
        None => Err(Error::ConfigFile),
    }
}

/// The key in a key file's text; a file that does not parse, or has no
/// string `key`, is corrupt.
pub fn key_from_document(text: &str) -> (r: Result<String, Error>)
    ensures
        match r {
            Ok(s) => key_of_document(text@) == Ok::<Seq<char>, Error>(s@),
            Err(e) => key_of_document(text@) == Err::<Seq<char>, Error>(e),
        },
{
    match parse_table(text) {
        Ok(t) => key_from_table(&t),
        Err(_) => Err(Error::ConfigFile),
    }
}

/// How reading the key file went.
pub enum FileRead {
    /// The file does not exist.
    Missing,
    /// The file exists but could not be read.
    Failed,
    /// The file's text.
    Text(String),
}

/// The stored key, from the outcome of reading the key file. A missing file
/// and a corrupt one are different errors.
pub fn get_key(read: FileRead) -> (r: Result<String, Error>)
    ensures
        match read {
            FileRead::Missing => r == Err::<String, Error>(Error::ConfigFileNotFound),
            FileRead::Failed => r == Err::<String, Error>(Error::Io),
            FileRead::Text(t) => match r {
                Ok(s) => key_of_document(t@) == Ok::<Seq<char>, Error>(s@),
                Err(e) => key_of_document(t@) == Err::<Seq<char>, Error>(e),
            },
        },
{
    match read {
        FileRead::Missing => Err(Error::ConfigFileNotFound),
        FileRead::Failed => Err(Error::Io),
        FileRead::Text(t) => key_from_document(t.as_str()),
    }
}

/// The entries of the key file that holds `key`.
pub open spec fn key_entries(key: Seq<char>) -> Map<Seq<char>, Seq<char>> {
    Map::empty().insert(key_field(), key)
}

/// The text of the key file that holds `key`: one string entry `key`.
pub fn key_document(key: &str) -> (r: Result<String, Error>)
    ensures
        r matches Ok(s) && s@ == toml_text_of(key_entries(key@)),
{
    let mut t = table_new();
    table_insert_text(&mut t, String::from_str("key"), String::from_str(key));
    proof {
        reveal_strlit("key");
        assert(table_strings(t) =~= key_entries(key@));
    }
    match table_to_text(&t) {
        Ok(s) => Ok(s),
        Err(_) => Err(Error::TomlSer),
    }
}

/// The request of a lookup, authenticated with the key from the key file.
/// There is no anonymous request: a credential error is passed on as it is.
pub fn get_client(word: &str, modus: Modus, read: FileRead) -> (r: Result<Request, Error>)
    ensures
        match read {
            FileRead::Missing => r == Err::<Request, Error>(Error::ConfigFileNotFound),
            FileRead::Failed => r == Err::<Request, Error>(Error::Io),
            FileRead::Text(t) => match key_of_document(t@) {
                Ok(k) => r matches Ok(q) && q@ == (url_of(word.spec_bytes(), modus), headers_of(k)),
                Err(e) => r == Err::<Request, Error>(e),
            },
        },
{
    let key = get_key(read)?;
    Ok(build_request(word, modus, key.as_str()))
}

} // verus!
