use vstd::prelude::*;
use vstd::string::StringExecFns;

verus! {

/// The kind of lookup: it selects both the endpoint and the reply's schema.
#[derive(PartialEq, Eq, Structural, Clone, Copy, Debug)]
pub enum Modus {
    Synonyms,
    Definitions,
}

/// The path segment that names a lookup kind in the request URL.
pub open spec fn segment_of(m: Modus) -> Seq<char> {
    match m {
        Modus::Synonyms => "synonyms"@,
        Modus::Definitions => "definitions"@,
    }
}

impl Modus {
    /// The lower-case path segment of this lookup kind, from an explicit table.
    pub fn as_str(&self) -> (r: &'static str)
        ensures
            r@ == segment_of(*self),
    {
        match self {
            Modus::Synonyms => {
                proof {
                    reveal_strlit("synonyms");
                }
                "synonyms"
            },
            Modus::Definitions => {
                proof {
                    reveal_strlit("definitions");
                }
                "definitions"
            },
        }
    }
}

/// Each item followed by a newline, in order.
pub open spec fn lines_text(items: Seq<Seq<char>>) -> Seq<char>
    decreases items.len(),
{
    if items.len() == 0 {
        Seq::empty()
    } else {
        lines_text(items.drop_last()) + items.last() + seq!['\n']
    }
}

/// The rendered form of a synonyms result.
pub open spec fn synonyms_text(word: Seq<char>, synonyms: Seq<Seq<char>>) -> Seq<char> {
    "Synonyms for '"@ + word + "':\n\n"@ + lines_text(synonyms)
}

/// One rendered definition line: `(<part of speech>) <definition>`.
pub open spec fn definition_line(part_of_speech: Seq<char>, definition: Seq<char>) -> Seq<char> {
    seq!['('] + part_of_speech + ") "@ + definition
}

/// The lines of a definitions list, before each is terminated.
pub open spec fn definition_lines(defs: Seq<(Seq<char>, Seq<char>)>) -> Seq<Seq<char>> {
    defs.map_values(|d: (Seq<char>, Seq<char>)| definition_line(d.1, d.0))
}

/// The rendered form of a definitions result.
pub open spec fn definitions_text(word: Seq<char>, defs: Seq<(Seq<char>, Seq<char>)>) -> Seq<
    char,
> {
    "Definitions for '"@ + word + "':\n\n"@ + lines_text(definition_lines(defs))
}

/// The synonyms of a word, in the order the service gave them.
pub struct SynonymsResponse {
    pub word: String,
    pub synonyms: Vec<String>,
}

impl View for SynonymsResponse {
    type V = (Seq<char>, Seq<Seq<char>>);

    open spec fn view(&self) -> Self::V {
        (self.word@, self.synonyms@.map_values(|s: String| s@))
    }
}

impl SynonymsResponse {
    pub fn new(word: String, synonyms: Vec<String>) -> (r: Self)
        ensures
            r@ == (word@, synonyms@.map_values(|s: String| s@)),
    {
        SynonymsResponse { word, synonyms }
    }

    pub fn word(&self) -> (r: &String)
        ensures
            r@ == self@.0,
    {
        &self.word
    }

    pub fn synonyms(&self) -> (r: &Vec<String>)
        ensures
            r@.map_values(|s: String| s@) == self@.1,
    {
        &self.synonyms
    }

    /// The text shown to the user: a header, a blank line, then one synonym per line.
    pub fn render(&self) -> (r: String)
        ensures
            r@ == synonyms_text(self@.0, self@.1),
    {
        let mut out = String::from_str("Synonyms for '");
        out.append(self.word.as_str());
        out.append("':\n\n");
        let ghost head = out@;
        proof {
            reveal_strlit("Synonyms for '");
            reveal_strlit("':\n\n");
            assert(self@.1.take(0) =~= Seq::<Seq<char>>::empty());
        }
        let mut i: usize = 0;
        while i < self.synonyms.len()
            invariant
                i <= self.synonyms@.len(),
                head == "Synonyms for '"@ + self@.0 + "':\n\n"@,
                out@ == head + lines_text(self@.1.take(i as int)),
            decreases self.synonyms@.len() - i,
        {
            out.append(self.synonyms[i].as_str());
            out.append("\n");
            proof {
                reveal_strlit("\n");
                let t = self@.1.take(i as int + 1);
                assert(t.drop_last() =~= self@.1.take(i as int));
                assert(t.last() == self.synonyms@[i as int]@);
                assert(out@ =~= head + lines_text(t));
            }
            i = i + 1;
        }
        proof {
            assert(self@.1.take(self.synonyms@.len() as int) =~= self@.1);
            assert(out@ =~= synonyms_text(self@.0, self@.1));
        }
        out
    }
}

/// One meaning of a word: its text and its part of speech.
pub struct Definition {
    pub definition: String,
    pub part_of_speech: String,
}

impl View for Definition {
    type V = (Seq<char>, Seq<char>);

    open spec fn view(&self) -> Self::V {
        (self.definition@, self.part_of_speech@)
    }
}

impl Definition {
    pub fn new(definition: String, part_of_speech: String) -> (r: Self)
        ensures
            r@ == (definition@, part_of_speech@),
    {
        Definition { definition, part_of_speech }
    }

    pub fn definition(&self) -> (r: &String)
        ensures
            r@ == self@.0,
    {
        &self.definition
    }

    pub fn part_of_speech(&self) -> (r: &String)
        ensures
            r@ == self@.1,
    {
        &self.part_of_speech
    }
}

/// The definitions of a word, in the order the service gave them.
pub struct DefinitionsResponse {
    pub word: String,
    pub definitions: Vec<Definition>,
}

impl View for DefinitionsResponse {
    type V = (Seq<char>, Seq<(Seq<char>, Seq<char>)>);

    open spec fn view(&self) -> Self::V {
        (self.word@, self.definitions@.map_values(|d: Definition| d@))
    }
}

impl DefinitionsResponse {
    pub fn new(word: String, definitions: Vec<Definition>) -> (r: Self)
        ensures
            r@ == (word@, definitions@.map_values(|d: Definition| d@)),
    {
        DefinitionsResponse { word, definitions }
    }

    pub fn word(&self) -> (r: &String)
        ensures
            r@ == self@.0,
    {
        &self.word
    }

    pub fn definitions(&self) -> (r: &Vec<Definition>)
        ensures
            r@.map_values(|d: Definition| d@) == self@.1,
    {
        &self.definitions
    }

    /// The text shown to the user: a header, a blank line, then one
    /// `(<part of speech>) <definition>` line per meaning.
    pub fn render(&self) -> (r: String)
        ensures
            r@ == definitions_text(self@.0, self@.1),
    {
        let mut out = String::from_str("Definitions for '");
        out.append(self.word.as_str());
        out.append("':\n\n");
        let ghost head = out@;
        let ghost lines = definition_lines(self@.1);
        proof {
            reveal_strlit("Definitions for '");
            reveal_strlit("':\n\n");
            assert(lines.take(0) =~= Seq::<Seq<char>>::empty());
        }
        let mut i: usize = 0;
        while i < self.definitions.len()
            invariant
                i <= self.definitions@.len(),
                lines == definition_lines(self@.1),
                lines.len() == self.definitions@.len(),
                head == "Definitions for '"@ + self@.0 + "':\n\n"@,
                out@ == head + lines_text(lines.take(i as int)),
            decreases self.definitions@.len() - i,
        {
            let d = &self.definitions[i];
            out.append("(");
            out.append(d.part_of_speech.as_str());
            out.append(") ");
            out.append(d.definition.as_str());
            out.append("\n");
            proof {
                reveal_strlit("(");
                reveal_strlit(") ");
                reveal_strlit("\n");
                let t = lines.take(i as int + 1);
                assert(t.drop_last() =~= lines.take(i as int));
                assert(t.last() =~= definition_line(d@.1, d@.0));
                assert(out@ =~= head + lines_text(t));
            }
            i = i + 1;
        }
        proof {
            assert(lines.take(self.definitions@.len() as int) =~= lines);
            assert(out@ =~= definitions_text(self@.0, self@.1));
        }
        out
    }
}

} // verus!
