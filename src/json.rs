use vstd::prelude::*;
use vstd::string::StringExecFns;
use crate::operations::{Definition, DefinitionsResponse, SynonymsResponse};

verus! {

/// A JSON document, as the transport hands it over. The members of an object
/// have distinct names.
pub enum Json {
    Null,
    Bool(bool),
    /// A number, kept as its literal text.
    Number(String),
    Text(String),
    Array(Vec<Json>),
    Object(Vec<(String, Json)>),
}

/// A place in a reply where decoding can fail.
#[derive(PartialEq, Eq, Structural, Clone, Copy, Debug)]
pub enum Field {
    Body,
    Word,
    Synonyms,
    Definitions,
    Definition,
    PartOfSpeech,
}

/// The JSON kind a place in a reply must have.
#[derive(PartialEq, Eq, Structural, Clone, Copy, Debug)]
pub enum Expected {
    Object,
    Array,
    Text,
}

/// Why a reply does not match the schema of its lookup kind.
#[derive(PartialEq, Eq, Structural, Clone, Copy, Debug)]
pub enum DecodeError {
    /// The body is not a JSON document at all.
    Malformed,
    /// A required member is absent.
    Missing(Field),
    /// A member is present with the wrong kind.
    WrongType(Field, Expected),
}

/// The member name of a field on the wire. The in-memory `part_of_speech`
/// travels as `partOfSpeech`.
pub open spec fn wire_name(f: Field) -> Seq<char> {
    match f {
        Field::Body => ""@,
        Field::Word => "word"@,
        Field::Synonyms => "synonyms"@,
        Field::Definitions => "definitions"@,
        Field::Definition => "definition"@,
        Field::PartOfSpeech => "partOfSpeech"@,
    }
}

impl Field {
    /// The member name of this field on the wire, from an explicit table.
    pub fn wire_name(&self) -> (r: &'static str)
        ensures
            r@ == wire_name(*self),
    {
        match self {
            Field::Body => {
                proof {
                    reveal_strlit("");
                }
                ""
            },
            Field::Word => {
                proof {
                    reveal_strlit("word");
                }
                "word"
            },
            Field::Synonyms => {
                proof {
                    reveal_strlit("synonyms");
                }
                "synonyms"
            },
            Field::Definitions => {
                proof {
                    reveal_strlit("definitions");
                }
                "definitions"
            },
            Field::Definition => {
                proof {
                    reveal_strlit("definition");
                }
                "definition"
            },
            Field::PartOfSpeech => {
                proof {
                    reveal_strlit("partOfSpeech");
                }
                "partOfSpeech"
            },
        }
    }
}

/// The value of the first member called `name`, if any.
pub open spec fn member(members: Seq<(String, Json)>, name: Seq<char>) -> Option<Json>
    decreases members.len(),
{
    if members.len() == 0 {
        None
    } else if members[0].0@ == name {
        Some(members[0].1)
    } else {
        member(members.drop_first(), name)
    }
}

/// A required text member of an object.
pub open spec fn text_member(members: Seq<(String, Json)>, f: Field) -> Result<
    Seq<char>,
    DecodeError,
> {
    match member(members, wire_name(f)) {
        None => Err(DecodeError::Missing(f)),
        Some(Json::Text(s)) => Ok(s@),
        Some(_) => Err(DecodeError::WrongType(f, Expected::Text)),
    }
}

/// The texts of an array whose items must all be text; otherwise the error
/// for the first item that is not.
pub open spec fn text_items(items: Seq<Json>, f: Field) -> Result<Seq<Seq<char>>, DecodeError>
    decreases items.len(),
{
    if items.len() == 0 {
        Ok(Seq::empty())
    } else {
        match text_items(items.drop_last(), f) {
            Err(e) => Err(e),
            Ok(ts) => match items.last() {
                Json::Text(s) => Ok(ts.push(s@)),
                _ => Err(DecodeError::WrongType(f, Expected::Text)),
            },
        }
    }
}

/// What a synonyms reply decodes to. An absent `synonyms` member is an empty
/// list, unless the body carries `definitions` instead: then it is the reply of
/// the other lookup kind, and an error.
pub open spec fn synonyms_of(body: Json) -> Result<(Seq<char>, Seq<Seq<char>>), DecodeError> {
    match body {
        Json::Object(members) => match text_member(members@, Field::Word) {
            Err(e) => Err(e),
            Ok(w) => match member(members@, wire_name(Field::Synonyms)) {
                None => if member(members@, wire_name(Field::Definitions)) is Some {
                    Err(DecodeError::Missing(Field::Synonyms))
                } else {
                    Ok((w, Seq::empty()))
                },
                Some(Json::Array(items)) => match text_items(items@, Field::Synonyms) {
                    Err(e) => Err(e),
                    Ok(ts) => Ok((w, ts)),
                },
                Some(_) => Err(DecodeError::WrongType(Field::Synonyms, Expected::Array)),
            },
        },
        _ => Err(DecodeError::WrongType(Field::Body, Expected::Object)),
    }
}

/// What one item of a definitions list decodes to: (definition, part of speech).
pub open spec fn definition_of(item: Json) -> Result<(Seq<char>, Seq<char>), DecodeError> {
    match item {
        Json::Object(members) => match text_member(members@, Field::Definition) {
            Err(e) => Err(e),
            Ok(d) => match text_member(members@, Field::PartOfSpeech) {
                Err(e) => Err(e),
                Ok(p) => Ok((d, p)),
            },
        },
        _ => Err(DecodeError::WrongType(Field::Definitions, Expected::Object)),
    }
}

/// The decoded items of a definitions list, or the error of the first bad one.
pub open spec fn definition_items(items: Seq<Json>) -> Result<
    Seq<(Seq<char>, Seq<char>)>,
    DecodeError,
>
    decreases items.len(),
{
    if items.len() == 0 {
        Ok(Seq::empty())
    } else {
        match definition_items(items.drop_last()) {
            Err(e) => Err(e),
            Ok(ds) => match definition_of(items.last()) {
                Err(e) => Err(e),
                Ok(d) => Ok(ds.push(d)),
            },
        }
    }
}

/// What a definitions reply decodes to. The `definitions` member is required.
pub open spec fn definitions_of(body: Json) -> Result<
    (Seq<char>, Seq<(Seq<char>, Seq<char>)>),
    DecodeError,
> {
    match body {
        Json::Object(members) => match text_member(members@, Field::Word) {
            Err(e) => Err(e),
            Ok(w) => match member(members@, wire_name(Field::Definitions)) {
                None => Err(DecodeError::Missing(Field::Definitions)),
                Some(Json::Array(items)) => match definition_items(items@) {
                    Err(e) => Err(e),
                    Ok(ds) => Ok((w, ds)),
                },
                Some(_) => Err(DecodeError::WrongType(Field::Definitions, Expected::Array)),
            },
        },
        _ => Err(DecodeError::WrongType(Field::Body, Expected::Object)),
    }
}

/// The value of the first member called after `f`, if any.
fn find_member<'a>(members: &'a Vec<(String, Json)>, f: Field) -> (r: Option<&'a Json>)
    ensures
        match r {
            Some(j) => member(members@, wire_name(f)) == Some(*j),
            None => member(members@, wire_name(f)) is None,
        },
{
    let name = String::from_str(f.wire_name());
    let mut i: usize = 0;
    assert(members@.skip(0) =~= members@);
    while i < members.len()
        invariant
            i <= members@.len(),
            name@ == wire_name(f),
            member(members@, wire_name(f)) == member(members@.skip(i as int), wire_name(f)),
        decreases members@.len() - i,
    {
        assert(members@.skip(i as int).drop_first() =~= members@.skip(i as int + 1));
        if members[i].0 == name {
            return Some(&members[i].1);
        }
        i = i + 1;
    }
    None
}

/// A required text member of an object.
fn get_text(members: &Vec<(String, Json)>, f: Field) -> (r: Result<String, DecodeError>)
    ensures
        match r {
            Ok(s) => text_member(members@, f) == Ok::<Seq<char>, DecodeError>(s@),
            Err(e) => text_member(members@, f) == Err::<Seq<char>, DecodeError>(e),
        },
{
    match find_member(members, f) {
        None => Err(DecodeError::Missing(f)),
        Some(Json::Text(s)) => Ok(s.clone()),
        Some(_) => Err(DecodeError::WrongType(f, Expected::Text)),
    }
}

/// Once a prefix of an array fails to decode as text, the whole array fails the same way.
proof fn lemma_text_items_prefix_err(items: Seq<Json>, k: int, f: Field)
    requires
        0 <= k <= items.len(),
        text_items(items.take(k), f) is Err,
    ensures
        text_items(items, f) == text_items(items.take(k), f),
    decreases items.len(),
{
    if k == items.len() {
        assert(items.take(k) =~= items);
    } else {
        assert(items.drop_last().take(k) =~= items.take(k));
        lemma_text_items_prefix_err(items.drop_last(), k, f);
    }
}

/// Once a prefix of a definitions list fails to decode, the whole list fails the same way.
proof fn lemma_definition_items_prefix_err(items: Seq<Json>, k: int)
    requires
        0 <= k <= items.len(),
        definition_items(items.take(k)) is Err,
    ensures
        definition_items(items) == definition_items(items.take(k)),
    decreases items.len(),
{
    if k == items.len() {
        assert(items.take(k) =~= items);
    } else {
        assert(items.drop_last().take(k) =~= items.take(k));
        lemma_definition_items_prefix_err(items.drop_last(), k);
    }
}

/// The texts of an array whose items must all be text.
fn get_text_items(items: &Vec<Json>, f: Field) -> (r: Result<Vec<String>, DecodeError>)
    ensures
        match r {
            Ok(v) => text_items(items@, f) == Ok::<Seq<Seq<char>>, DecodeError>(
                v@.map_values(|s: String| s@),
            ),
            Err(e) => text_items(items@, f) == Err::<Seq<Seq<char>>, DecodeError>(e),
        },
{
    let mut out: Vec<String> = Vec::new();
    let mut i: usize = 0;
    assert(items@.take(0) =~= Seq::<Json>::empty());
    assert(out@.map_values(|s: String| s@) =~= Seq::<Seq<char>>::empty());
    while i < items.len()
        invariant
            i <= items@.len(),
            text_items(items@.take(i as int), f) == Ok::<Seq<Seq<char>>, DecodeError>(
                out@.map_values(|s: String| s@),
            ),
        decreases items@.len() - i,
    {
        let ghost t = items@.take(i as int + 1);
        let ghost before = out@.map_values(|s: String| s@);
        assert(t.drop_last() =~= items@.take(i as int));
        match &items[i] {
            Json::Text(s) => {
                out.push(s.clone());
                assert(out@.map_values(|s: String| s@) =~= before.push(s@));
            },
            _ => {
                proof {
                    lemma_text_items_prefix_err(items@, i as int + 1, f);
                }
                return Err(DecodeError::WrongType(f, Expected::Text));
            },
        }
        i = i + 1;
    }
    assert(items@.take(items@.len() as int) =~= items@);
    Ok(out)
}

/// One item of a definitions list.
fn get_definition(item: &Json) -> (r: Result<Definition, DecodeError>)
    ensures
        match r {
            Ok(d) => definition_of(*item) == Ok::<(Seq<char>, Seq<char>), DecodeError>(d@),
            Err(e) => definition_of(*item) == Err::<(Seq<char>, Seq<char>), DecodeError>(e),
        },
{
    match item {
        Json::Object(members) => {
            let definition = get_text(members, Field::Definition)?;
            let part_of_speech = get_text(members, Field::PartOfSpeech)?;
            Ok(Definition::new(definition, part_of_speech))
        },
        _ => Err(DecodeError::WrongType(Field::Definitions, Expected::Object)),
    }
}

/// The items of a definitions list.
fn get_definition_items(items: &Vec<Json>) -> (r: Result<Vec<Definition>, DecodeError>)
    ensures
        match r {
            Ok(v) => definition_items(items@) == Ok::<Seq<(Seq<char>, Seq<char>)>, DecodeError>(
                v@.map_values(|d: Definition| d@),
            ),
            Err(e) => definition_items(items@) == Err::<Seq<(Seq<char>, Seq<char>)>, DecodeError>(
                e,
            ),
        },
{
    let mut out: Vec<Definition> = Vec::new();
    let mut i: usize = 0;
    assert(items@.take(0) =~= Seq::<Json>::empty());
    assert(out@.map_values(|d: Definition| d@) =~= Seq::<(Seq<char>, Seq<char>)>::empty());
    while i < items.len()
        invariant
            i <= items@.len(),
            definition_items(items@.take(i as int)) == Ok::<
                Seq<(Seq<char>, Seq<char>)>,
                DecodeError,
            >(out@.map_values(|d: Definition| d@)),
        decreases items@.len() - i,
    {
        let ghost t = items@.take(i as int + 1);
        let ghost before = out@.map_values(|d: Definition| d@);
        assert(t.drop_last() =~= items@.take(i as int));
        match get_definition(&items[i]) {
            Ok(d) => {
                let ghost dv = d@;
                out.push(d);
                assert(out@.map_values(|d: Definition| d@) =~= before.push(dv));
            },
            Err(e) => {
                proof {
                    lemma_definition_items_prefix_err(items@, i as int + 1);
                }
                return Err(e);
            },
        }
        i = i + 1;
    }
    assert(items@.take(items@.len() as int) =~= items@);
    Ok(out)
}

/// Decodes the body of a synonyms reply. An absent `synonyms` member is an
/// empty list when the body has no `definitions` member either; any other
/// mismatch with the schema is an error.
pub fn decode_synonyms(body: &Json) -> (r: Result<SynonymsResponse, DecodeError>)
    ensures
        match r {
            Ok(s) => synonyms_of(*body) == Ok::<(Seq<char>, Seq<Seq<char>>), DecodeError>(s@),
            Err(e) => synonyms_of(*body) == Err::<(Seq<char>, Seq<Seq<char>>), DecodeError>(e),
        },
{
    match body {
        Json::Object(members) => {
            let word = get_text(members, Field::Word)?;
            match find_member(members, Field::Synonyms) {
                None => {
                    if find_member(members, Field::Definitions).is_some() {
                        return Err(DecodeError::Missing(Field::Synonyms));
                    }
                    let none: Vec<String> = Vec::new();
                    assert(none@.map_values(|s: String| s@) =~= Seq::<Seq<char>>::empty());
                    Ok(SynonymsResponse::new(word, none))
                },
                Some(Json::Array(items)) => {
                    let synonyms = get_text_items(items, Field::Synonyms)?;
                    Ok(SynonymsResponse::new(word, synonyms))
                },
                Some(_) => Err(DecodeError::WrongType(Field::Synonyms, Expected::Array)),
            }
        },
        _ => Err(DecodeError::WrongType(Field::Body, Expected::Object)),
    }
}

/// Decodes the body of a definitions reply; every mismatch with the schema,
/// an absent `definitions` member included, is an error.
pub fn decode_definitions(body: &Json) -> (r: Result<DefinitionsResponse, DecodeError>)
    ensures
        match r {
            Ok(d) => definitions_of(*body) == Ok::<
                (Seq<char>, Seq<(Seq<char>, Seq<char>)>),
                DecodeError,
            >(d@),
            Err(e) => definitions_of(*body) == Err::<
                (Seq<char>, Seq<(Seq<char>, Seq<char>)>),
                DecodeError,
            >(e),
        },
{
    match body {
        Json::Object(members) => {
            let word = get_text(members, Field::Word)?;
            match find_member(members, Field::Definitions) {
                None => Err(DecodeError::Missing(Field::Definitions)),
                Some(Json::Array(items)) => {
                    let definitions = get_definition_items(items)?;
                    Ok(DefinitionsResponse::new(word, definitions))
                },
                Some(_) => Err(DecodeError::WrongType(Field::Definitions, Expected::Array)),
            }
        },
        _ => Err(DecodeError::WrongType(Field::Body, Expected::Object)),
    }
}

/// A synonyms reply (an object with a text `word`, a `synonyms` array and no
/// `definitions` member) does not decode as definitions: it is a decode error.
pub proof fn lemma_synonyms_body_is_not_definitions(body: Json)
    requires
        synonyms_of(body) is Ok,
        body matches Json::Object(members) && member(members@, wire_name(Field::Synonyms)) matches Some(
            Json::Array(_),
        ) && member(members@, wire_name(Field::Definitions)) is None,
    ensures
        definitions_of(body) == Err::<(Seq<char>, Seq<(Seq<char>, Seq<char>)>), DecodeError>(
            DecodeError::Missing(Field::Definitions),
        ),
{
}

/// A definitions reply (an object with a text `word`, a `definitions` array and
/// no `synonyms` member) does not decode as synonyms: it is a decode error.
pub proof fn lemma_definitions_body_is_not_synonyms(body: Json)
    requires
        definitions_of(body) is Ok,
        body matches Json::Object(members) && member(members@, wire_name(Field::Definitions))
            matches Some(Json::Array(_)) && member(members@, wire_name(Field::Synonyms)) is None,
    ensures
        synonyms_of(body) == Err::<(Seq<char>, Seq<Seq<char>>), DecodeError>(
            DecodeError::Missing(Field::Synonyms),
        ),
{
}

} // verus!
