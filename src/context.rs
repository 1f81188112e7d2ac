//! The translation unit: an append-only text that collects directives,
//! raw fragments and function texts in the order they are added.
use vstd::prelude::*;
use vstd::string::*;
use crate::cfunction::CFunction;

verus! {

/// `#` + the directive keyword + ` "{header}"` and a newline.
pub open spec fn header_directive_text(header: Seq<char>) -> Seq<char> {
    seq!['#', 'i', 'n', 'c', 'l', 'u', 'd', 'e', ' ', '"'] + header + seq!['"', '\n']
}

/// The pieces one after the other, in order.
pub open spec fn concat(pieces: Seq<Seq<char>>) -> Seq<char>
    decreases pieces.len(),
{
    if pieces.len() == 0 {
        seq![]
    } else {
        concat(pieces.drop_last()) + pieces.last()
    }
}

/// One append to a translation unit, with the text it was given.
pub ghost enum Emission {
    /// `add_ccode` with this text.
    Raw(Seq<char>),
    /// `add_include` with this header name.
    Header(Seq<char>),
    /// `add_function` of a builder whose text was this, finished or not.
    Function(Seq<char>),
}

/// The text that an append adds to the output.
pub open spec fn contribution(e: Emission) -> Seq<char> {
    match e {
        Emission::Raw(t) => t,
        Emission::Header(h) => header_directive_text(h),
        Emission::Function(body) => body,
    }
}

/// The text that a run of appends adds, in call order.
pub open spec fn contributions(es: Seq<Emission>) -> Seq<Seq<char>> {
    es.map_values(|e: Emission| contribution(e))
}

/// The generated C source text.
pub struct Context {
    ccode: String,
}

impl View for Context {
    type V = Seq<char>;

    closed spec fn view(&self) -> Seq<char> {
        self.ccode@
    }
}

impl Context {
    pub fn new() -> (r: Self)
        ensures
            r@ == Seq::<char>::empty(),
    {
        Context { ccode: String::new() }
    }

    /// The text collected so far; reading it changes nothing.
    pub fn get_ccode(&self) -> (r: &str)
        ensures
            r@ == self@,
    {
        self.ccode.as_str()
    }

    /// Appends `ccode` unchanged.
    pub fn add_ccode(&mut self, ccode: &str)
        ensures
            final(self)@ == old(self)@ + ccode@,
    {
        self.ccode.append(ccode);
    }

    /// Appends a directive that pulls in the header `head_file_to_include`.
    pub fn add_include(&mut self, head_file_to_include: &str)
        ensures
            final(self)@ == old(self)@ + header_directive_text(head_file_to_include@),
    {
        // The keyword is spelled with an escape for its first letter.
        let opening = "#\x69nclude \"";
        let closing = "\"\n";
        proof {
            reveal_strlit("#\x69nclude \"");
            reveal_strlit("\"\n");
        }
        assert(opening@ =~= seq!['#', 'i', 'n', 'c', 'l', 'u', 'd', 'e', ' ', '"']);
        assert(closing@ =~= seq!['"', '\n']);
        let mut line = String::from_str(opening);
        line.append(head_file_to_include);
        line.append(closing);
        self.add_ccode(line.as_str());
    }

    /// Appends the text of `func` as it stands, finished or not: nothing
    /// is closed on its behalf.
    pub fn add_function(&mut self, func: &CFunction)
        ensures
            final(self)@ == old(self)@ + func.body(),
    {
        self.add_ccode(func.get_generated_function_body_ccode());
    }
}

/// After any run of appends, the output is the output before them followed
/// by the contribution of each append, in call order: nothing is reordered,
/// merged or dropped.
pub proof fn lemma_output_is_concatenation(states: Seq<Context>, emissions: Seq<Emission>)
    requires
        states.len() == emissions.len() + 1,
        forall|i: int|
            0 <= i < emissions.len() ==> #[trigger] states[i + 1]@ == states[i]@ + contribution(
                emissions[i],
            ),
    ensures
        states.last()@ == states[0]@ + concat(contributions(emissions)),
    decreases emissions.len(),
{
    let n = emissions.len();
    if n == 0 {
        assert(states[0]@ + concat(contributions(emissions)) =~= states[0]@);
    } else {
        let prefix = states.drop_last();
        let first = emissions.drop_last();
        assert forall|i: int| 0 <= i < first.len() implies #[trigger] prefix[i + 1]@ == prefix[i]@
            + contribution(first[i]) by {
            assert(states[i + 1]@ == states[i]@ + contribution(emissions[i]));
        }
        lemma_output_is_concatenation(prefix, first);
        assert(contributions(emissions).drop_last() =~= contributions(first));
        assert(states[n as int]@ == states[n - 1]@ + contribution(emissions[n - 1]));
        assert(states.last()@ =~= states[0]@ + concat(contributions(emissions)));
    }
}

/// From an empty translation unit, the output is exactly the contributions
/// of the appends, concatenated in call order.
pub proof fn lemma_output_from_empty(states: Seq<Context>, emissions: Seq<Emission>)
    requires
        states.len() == emissions.len() + 1,
        states[0]@ == Seq::<char>::empty(),
        forall|i: int|
            0 <= i < emissions.len() ==> #[trigger] states[i + 1]@ == states[i]@ + contribution(
                emissions[i],
            ),
    ensures
        states.last()@ == concat(contributions(emissions)),
{
    lemma_output_is_concatenation(states, emissions);
    assert(states[0]@ + concat(contributions(emissions)) =~= concat(contributions(emissions)));
}

/// Two reads of a translation unit's output, or of a builder's text, with no
/// change in between, give the same text.
pub proof fn lemma_reads_are_stable(
    ctx: &Context,
    func: &CFunction,
    first_output: Seq<char>,
    second_output: Seq<char>,
    first_body: Seq<char>,
    second_body: Seq<char>,
)
    requires
        first_output == ctx@,
        second_output == ctx@,
        first_body == func.body(),
        second_body == func.body(),
    ensures
        first_output == second_output,
        first_body == second_body,
{
}

} // verus!
