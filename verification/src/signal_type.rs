//! The closed set of waveform families and their textual names.

use vstd::prelude::*;

pub mod generators;
pub mod quantization;

verus! {

/// The different signals that can be generated.
#[derive(Copy, Clone, Debug, PartialEq, Eq, Structural)]
pub enum SignalType {
    Sine,
    Square,
    Triangle,
    Sawtooth,
    Constant,
}

/// The failure of [`SignalType::parse`]: the text names no signal type.
#[derive(Copy, Clone, Debug, PartialEq, Eq, Structural)]
pub enum ParseError {
    VariantNotFound,
}

/// Every signal type, in declaration order.
pub open spec fn all_signal_types() -> Seq<SignalType> {
    seq![
        SignalType::Sine,
        SignalType::Square,
        SignalType::Triangle,
        SignalType::Sawtooth,
        SignalType::Constant,
    ]
}

/// The signal type that `text` names, if it names one. Matching is exact
/// and case-sensitive.
pub open spec fn parse_spec(text: Seq<char>) -> Option<SignalType> {
    if text == SignalType::Sine.name() {
        Some(SignalType::Sine)
    } else if text == SignalType::Square.name() {
        Some(SignalType::Square)
    } else if text == SignalType::Triangle.name() {
        Some(SignalType::Triangle)
    } else if text == SignalType::Sawtooth.name() {
        Some(SignalType::Sawtooth)
    } else if text == SignalType::Constant.name() {
        Some(SignalType::Constant)
    } else {
        None
    }
}

impl SignalType {
    /// The canonical name of this signal type.
    pub open spec fn name(self) -> Seq<char> {
        match self {
            SignalType::Sine => "Sine"@,
            SignalType::Square => "Square"@,
            SignalType::Triangle => "Triangle"@,
            SignalType::Sawtooth => "Sawtooth"@,
            SignalType::Constant => "Constant"@,
        }
    }

    /// Returns the canonical name of this signal type.
    pub fn to_string(&self) -> (s: &'static str)
        ensures
            s@ == self.name(),
    {
        match self {
            SignalType::Sine => "Sine",
            SignalType::Square => "Square",
            SignalType::Triangle => "Triangle",
            SignalType::Sawtooth => "Sawtooth",
            SignalType::Constant => "Constant",
        }
    }

    /// Reads a signal type from its canonical name. Any other text,
    /// including a name in different case, is an error.
    pub fn parse(string: &str) -> (r: Result<SignalType, ParseError>)
        ensures
            match r {
                Ok(kind) => parse_spec(string@) == Some(kind) && string@ == kind.name(),
                Err(e) => e == ParseError::VariantNotFound && parse_spec(string@).is_none()
                    && forall|kind: SignalType| string@ != kind.name(),
            },
    {
        if same_text(string, "Sine") {
            Ok(SignalType::Sine)
        } else if same_text(string, "Square") {
            Ok(SignalType::Square)
        } else if same_text(string, "Triangle") {
            Ok(SignalType::Triangle)
        } else if same_text(string, "Sawtooth") {
            Ok(SignalType::Sawtooth)
        } else if same_text(string, "Constant") {
            Ok(SignalType::Constant)
        } else {
            Err(ParseError::VariantNotFound)
        }
    }

    /// The same as [`SignalType::parse`].
    pub fn from_string(string: &str) -> (r: Result<SignalType, ParseError>)
        ensures
            match r {
                Ok(kind) => parse_spec(string@) == Some(kind) && string@ == kind.name(),
                Err(e) => e == ParseError::VariantNotFound && parse_spec(string@).is_none()
                    && forall|kind: SignalType| string@ != kind.name(),
            },
    {
        SignalType::parse(string)
    }
}

/// Returns every signal type, in declaration order. The list is built
/// anew on each call.
pub fn get_signal_types() -> (kinds: Vec<SignalType>)
    ensures
        kinds@ == all_signal_types(),
{
    let mut kinds: Vec<SignalType> = Vec::new();
    kinds.push(SignalType::Sine);
    kinds.push(SignalType::Square);
    kinds.push(SignalType::Triangle);
    kinds.push(SignalType::Sawtooth);
    kinds.push(SignalType::Constant);
    assert(kinds@ =~= all_signal_types());
    kinds
}

/// Two signal types with the same name are the same signal type.
pub proof fn lemma_names_distinct(a: SignalType, b: SignalType)
    ensures
        a.name() == b.name() <==> a == b,
{
    reveal_strlit("Sine");
    reveal_strlit("Square");
    reveal_strlit("Triangle");
    reveal_strlit("Sawtooth");
    reveal_strlit("Constant");
    if a != b && a.name() == b.name() {
        let n = a.name();
        let m = b.name();
        assert(n.len() == m.len());
        assert(n[0] == m[0]);
        assert(n[1] == m[1]);
    }
}

/// A text parses to a signal type exactly when it is that type's name.
pub proof fn lemma_parse_spec_matches_name(text: Seq<char>, kind: SignalType)
    ensures
        parse_spec(text) == Some(kind) <==> text == kind.name(),
{
    lemma_names_distinct(SignalType::Sine, kind);
    lemma_names_distinct(SignalType::Square, kind);
    lemma_names_distinct(SignalType::Triangle, kind);
    lemma_names_distinct(SignalType::Sawtooth, kind);
    lemma_names_distinct(SignalType::Constant, kind);
}

/// Parsing the name of a signal type gives that signal type back.
pub proof fn lemma_parse_name_round_trip(kind: SignalType)
    ensures
        parse_spec(kind.name()) == Some(kind),
{
    lemma_parse_spec_matches_name(kind.name(), kind);
}

/// The list of all signal types holds five entries, holds none of them
/// twice, and holds every signal type.
pub proof fn lemma_all_signal_types_complete()
    ensures
        all_signal_types().len() == 5,
        all_signal_types().no_duplicates(),
        forall|kind: SignalType| all_signal_types().contains(kind),
{
    let all = all_signal_types();
    assert forall|kind: SignalType| all.contains(kind) by {
        match kind {
            SignalType::Sine => assert(all[0] == kind),
            SignalType::Square => assert(all[1] == kind),
            SignalType::Triangle => assert(all[2] == kind),
            SignalType::Sawtooth => assert(all[3] == kind),
            SignalType::Constant => assert(all[4] == kind),
        }
    }
}

/// Whether two strings hold the same characters.
fn same_text(a: &str, b: &str) -> (same: bool)
    ensures
        same == (a@ == b@),
{
    let x = a.as_bytes();
    let y = b.as_bytes();
    proof {
        vstd::utf8::encode_utf8_decode_utf8(a@);
        vstd::utf8::encode_utf8_decode_utf8(b@);
    }
    if x.len() != y.len() {
        return false;
    }
    let mut i: usize = 0;
    while i < x.len()
        invariant
            x@.len() == y@.len(),
            0 <= i <= x@.len(),
            forall|j: int| 0 <= j < i ==> x@[j] == y@[j],
            x@ == vstd::utf8::encode_utf8(a@),
            y@ == vstd::utf8::encode_utf8(b@),
        decreases x@.len() - i,
    {
        if x[i] != y[i] {
            return false;
        }
        i += 1;
    }
    assert(x@ =~= y@);
    true
}

} // verus!
