use vstd::prelude::*;
use vstd::string::StrSliceExecFns;

verus! {

/// Most characters read through range-text retrieval.
pub const MAX_TEXT_LEN: usize = 4096;

/// At most the first `MAX_TEXT_LEN` characters of `s`.
pub open spec fn clamp_spec(s: Seq<char>) -> Seq<char> {
    if s.len() <= MAX_TEXT_LEN {
        s
    } else {
        s.take(MAX_TEXT_LEN as int)
    }
}

/// Text of an element from its two retrieval capabilities: the direct value
/// when it is present and not empty, else the range text, clamped, else empty.
pub open spec fn shallow_spec(value: Option<Seq<char>>, range: Option<Seq<char>>) -> Seq<char> {
    match value {
        Some(v) if v.len() > 0 => v,
        _ => match range {
            Some(t) => clamp_spec(t),
            None => Seq::empty(),
        },
    }
}

/// Text of an element given its own shallow text and, when that is empty,
/// the shallow text of the first descendant able to supply text, if any.
pub open spec fn deep_spec(own: Seq<char>, descendant: Option<Seq<char>>) -> Seq<char> {
    if own.len() > 0 {
        own
    } else {
        match descendant {
            Some(d) => d,
            None => Seq::empty(),
        }
    }
}

pub open spec fn opt_view(o: Option<String>) -> Option<Seq<char>> {
    match o {
        Some(s) => Some(s@),
        None => None,
    }
}

/// Range text cut to its first `MAX_TEXT_LEN` characters.
pub fn clamp_range_text(text: String) -> (r: String)
    ensures
        r@ == clamp_spec(text@),
        r@.len() <= MAX_TEXT_LEN,
{
    let n = text.as_str().unicode_len();
    if n <= MAX_TEXT_LEN {
        text
    } else {
        text.as_str().substring_char(0, MAX_TEXT_LEN).to_owned()
    }
}

/// Shallow retrieval from what the value and range-text capabilities gave.
pub fn shallow_text(value: Option<String>, range: Option<String>) -> (r: String)
    ensures
        r@ == shallow_spec(opt_view(value), opt_view(range)),
{
    match value {
        Some(v) => {
            if v.as_str().unicode_len() > 0 {
                return v;
            }
        },
        None => {},
    }
    match range {
        Some(t) => clamp_range_text(t),
        None => String::new(),
    }
}

/// Whether shallow retrieval must go on to the range-text capability after
/// the direct value gave `value`.
pub fn needs_range(value: &Option<String>) -> (r: bool)
    ensures
        r == !(opt_view(*value) matches Some(v) && v.len() > 0),
        !r ==> forall|range: Option<Seq<char>>|
            #[trigger] shallow_spec(opt_view(*value), range) == shallow_spec(opt_view(*value), None),
{
    match value {
        Some(v) => v.as_str().unicode_len() == 0,
        None => true,
    }
}

/// Whether deep retrieval must search the descendants, given the element's
/// own shallow text.
pub fn needs_descendant(own: &String) -> (r: bool)
    ensures
        r == (own@.len() == 0),
        !r ==> forall|d: Option<Seq<char>>| #[trigger] deep_spec(own@, d) == own@,
{
    own.as_str().unicode_len() == 0
}

/// Deep retrieval: the element's own text, else that of the descendant found.
pub fn deep_text(own: String, descendant: Option<String>) -> (r: String)
    ensures
        r@ == deep_spec(own@, opt_view(descendant)),
{
    if own.as_str().unicode_len() > 0 {
        own
    } else {
        match descendant {
            Some(d) => d,
            None => String::new(),
        }
    }
}

/// A question that retrieval asks of the host about the current subject: the
/// element itself, or the descendant once one has been found.
#[derive(Clone, Copy, Debug, PartialEq, Eq, Structural)]
pub enum TextQuery {
    /// Its current value through the value capability.
    Value,
    /// Its text through the range-text capability, up to `MAX_TEXT_LEN`.
    Range,
    /// The first descendant of the element that supports either capability.
    FindDescendant,
}

/// The host's answer to a `TextQuery`; `None` or `false` where the host call
/// failed or the capability is missing.
pub enum TextAnswer {
    Value(Option<String>),
    Range(Option<String>),
    Descendant(bool),
}

/// What retrieval needs next.
pub enum TextStep {
    Ask(TextQuery),
    Done(String),
}

/// Where a retrieval stands.
#[derive(Clone, Copy, Debug, PartialEq, Eq, Structural)]
pub enum Stage {
    ElementValue,
    ElementRange,
    Search,
    DescendantValue,
    DescendantRange,
    Finished,
}

/// The question asked in `stage`.
pub open spec fn asked(stage: Stage) -> Option<TextQuery> {
    match stage {
        Stage::ElementValue => Some(TextQuery::Value),
        Stage::ElementRange => Some(TextQuery::Range),
        Stage::Search => Some(TextQuery::FindDescendant),
        Stage::DescendantValue => Some(TextQuery::Value),
        Stage::DescendantRange => Some(TextQuery::Range),
        Stage::Finished => None,
    }
}

/// `answer` answers the question asked in `stage`.
pub open spec fn answers(stage: Stage, answer: TextAnswer) -> bool {
    match answer {
        TextAnswer::Value(_) => asked(stage) == Some(TextQuery::Value),
        TextAnswer::Range(_) => asked(stage) == Some(TextQuery::Range),
        TextAnswer::Descendant(_) => asked(stage) == Some(TextQuery::FindDescendant),
    }
}

/// Deep text retrieval as a conversation with the host: the element's value,
/// then its range text, then one search for a text-able descendant, then that
/// descendant's value and range text. The first non-empty text ends it.
pub struct TextRetrieval {
    stage: Stage,
    value: Option<String>,
}

impl TextRetrieval {
    pub closed spec fn stage(&self) -> Stage {
        self.stage
    }

    /// The value answered for the current subject, kept for shallow retrieval.
    pub closed spec fn value_seen(&self) -> Option<Seq<char>> {
        opt_view(self.value)
    }

    /// A new retrieval, and the first question to put to the host.
    pub fn start() -> (r: (TextRetrieval, TextQuery))
        ensures
            r.0.stage() == Stage::ElementValue,
            r.1 == TextQuery::Value,
    {
        (TextRetrieval { stage: Stage::ElementValue, value: None }, TextQuery::Value)
    }

    pub fn current_stage(&self) -> (r: Stage)
        ensures
            r == self.stage(),
    {
        self.stage
    }

    /// Takes the host's answer to the last question and says what comes next.
    pub fn advance(&mut self, answer: TextAnswer) -> (r: TextStep)
        requires
            answers(old(self).stage(), answer),
        ensures
            match r {
                TextStep::Ask(q) => asked(final(self).stage()) == Some(q),
                TextStep::Done(_) => final(self).stage() == Stage::Finished,
            },
            match answer {
                TextAnswer::Value(v) => if opt_view(v) matches Some(t) && t.len() > 0 {
                    r == TextStep::Done(v->Some_0)
                } else {
                    final(self).value_seen() == opt_view(v) && final(self).stage() == if old(
                        self,
                    ).stage() == Stage::ElementValue {
                        Stage::ElementRange
                    } else {
                        Stage::DescendantRange
                    }
                },
                TextAnswer::Range(t) => {
                    let text = shallow_spec(old(self).value_seen(), opt_view(t));
                    if text.len() > 0 || old(self).stage() == Stage::DescendantRange {
                        r matches TextStep::Done(d) && d@ == text
                    } else {
                        final(self).stage() == Stage::Search
                    }
                },
                TextAnswer::Descendant(found) => if found {
                    final(self).stage() == Stage::DescendantValue && final(self).value_seen()
                        == None::<Seq<char>>
                } else {
                    r matches TextStep::Done(d) && d@.len() == 0
                },
            },
    {
        match answer {
            TextAnswer::Value(v) => {
                if !needs_range(&v) {
                    self.stage = Stage::Finished;
                    match v {
                        Some(t) => TextStep::Done(t),
                        None => TextStep::Done(String::new()),
                    }
                } else {
                    self.stage = if self.stage == Stage::ElementValue {
                        Stage::ElementRange
                    } else {
                        Stage::DescendantRange
                    };
                    self.value = v;
                    TextStep::Ask(TextQuery::Range)
                }
            },
            TextAnswer::Range(t) => {
                let v = self.value.take();
                let text = shallow_text(v, t);
                if needs_descendant(&text) && self.stage == Stage::ElementRange {
                    self.stage = Stage::Search;
                    TextStep::Ask(TextQuery::FindDescendant)
                } else {
                    self.stage = Stage::Finished;
                    TextStep::Done(text)
                }
            },
            TextAnswer::Descendant(found) => {
                if found {
                    self.stage = Stage::DescendantValue;
                    self.value = None;
                    TextStep::Ask(TextQuery::Value)
                } else {
                    self.stage = Stage::Finished;
                    TextStep::Done(String::new())
                }
            },
        }
    }
}

/// The shallow text of a found descendant, given its two answers.
pub open spec fn descendant_text(d: Option<(Option<String>, Option<String>)>) -> Option<Seq<char>> {
    match d {
        Some((v, t)) => Some(shallow_spec(opt_view(v), opt_view(t))),
        None => None,
    }
}

/// Runs a retrieval against a host whose answers are known in advance: the
/// element's value and range text, and the first text-able descendant's value
/// and range text, if it has one. Questions the retrieval does not ask are
/// never answered.
pub fn retrieve_known(
    own_value: Option<String>,
    own_range: Option<String>,
    descendant: Option<(Option<String>, Option<String>)>,
) -> (r: String)
    ensures
        r@ == deep_spec(
            shallow_spec(opt_view(own_value), opt_view(own_range)),
            descendant_text(descendant),
        ),
{
    let (mut m, _) = TextRetrieval::start();
    match m.advance(TextAnswer::Value(own_value)) {
        TextStep::Done(t) => t,
        TextStep::Ask(_) => match m.advance(TextAnswer::Range(own_range)) {
            TextStep::Done(t) => t,
            TextStep::Ask(_) => match descendant {
                None => match m.advance(TextAnswer::Descendant(false)) {
                    TextStep::Done(t) => t,
                    TextStep::Ask(_) => String::new(),
                },
                Some((v, t)) => {
                    m.advance(TextAnswer::Descendant(true));
                    match m.advance(TextAnswer::Value(v)) {
                        TextStep::Done(x) => x,
                        TextStep::Ask(_) => match m.advance(TextAnswer::Range(t)) {
                            TextStep::Done(x) => x,
                            TextStep::Ask(_) => String::new(),
                        },
                    }
                },
            },
        },
    }
}

/// An element whose own capabilities give no text, and whose first text-able
/// descendant has the value `v`, yields `v`; an element with a non-empty value
/// yields that value, whatever lies below it.
pub proof fn lemma_deep_fallback(
    own_value: Option<Seq<char>>,
    own_range: Option<Seq<char>>,
    v: Seq<char>,
    d_range: Option<Seq<char>>,
    other: Option<Seq<char>>,
)
    ensures
        shallow_spec(own_value, own_range).len() == 0 && v.len() > 0 ==> deep_spec(
            shallow_spec(own_value, own_range),
            Some(shallow_spec(Some(v), d_range)),
        ) == v,
        own_value matches Some(w) && w.len() > 0 ==> deep_spec(
            shallow_spec(own_value, own_range),
            other,
        ) == own_value->Some_0,
{
}

/// Range text never exceeds `MAX_TEXT_LEN` characters, and a longer source
/// gives exactly its first `MAX_TEXT_LEN` characters.
pub proof fn lemma_truncation(s: Seq<char>)
    ensures
        clamp_spec(s).len() <= MAX_TEXT_LEN,
        s.len() > MAX_TEXT_LEN ==> clamp_spec(s) == s.take(MAX_TEXT_LEN as int),
        s.len() > MAX_TEXT_LEN ==> clamp_spec(s).len() == MAX_TEXT_LEN,
        clamp_spec(clamp_spec(s)) == clamp_spec(s),
{
}

} // verus!
