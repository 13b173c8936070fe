use vstd::prelude::*;
use vstd::string::StringExecFns;

verus! {

/// The character of a decimal digit.
pub open spec fn digit_char(d: nat) -> char {
    if d == 0 { '0' }
    else if d == 1 { '1' }
    else if d == 2 { '2' }
    else if d == 3 { '3' }
    else if d == 4 { '4' }
    else if d == 5 { '5' }
    else if d == 6 { '6' }
    else if d == 7 { '7' }
    else if d == 8 { '8' }
    else { '9' }
}

/// The decimal notation of `n`, without leading zeros.
pub open spec fn decimal(n: nat) -> Seq<char>
    decreases n,
{
    if n < 10 {
        seq![digit_char(n)]
    } else {
        decimal(n / 10).push(digit_char(n % 10))
    }
}

/// The source location a query is written at.
///
/// A call site is fixed where the query is written, so the set of call sites
/// (and with it the number of metric series) stays bounded.
#[derive(Debug)]
pub struct CallSite {
    pub file: String,
    pub line: u32,
    pub column: u32,
}

/// The mathematical value of a call site: file, line and column.
pub type SiteView = (Seq<char>, u32, u32);

impl View for CallSite {
    type V = SiteView;

    open spec fn view(&self) -> SiteView {
        (self.file@, self.line, self.column)
    }
}

/// The label `file:line:column` of a call site.
pub open spec fn location_of(site: SiteView) -> Seq<char> {
    site.0 + seq![':'] + decimal(site.1 as nat) + seq![':'] + decimal(site.2 as nat)
}

fn digit_str(d: u32) -> (r: &'static str)
    requires
        d < 10,
    ensures
        r@ == seq![digit_char(d as nat)],
{
    proof {
        reveal_strlit("0");
        reveal_strlit("1");
        reveal_strlit("2");
        reveal_strlit("3");
        reveal_strlit("4");
        reveal_strlit("5");
        reveal_strlit("6");
        reveal_strlit("7");
        reveal_strlit("8");
        reveal_strlit("9");
    }
    let r = if d == 0 { "0" }
    else if d == 1 { "1" }
    else if d == 2 { "2" }
    else if d == 3 { "3" }
    else if d == 4 { "4" }
    else if d == 5 { "5" }
    else if d == 6 { "6" }
    else if d == 7 { "7" }
    else if d == 8 { "8" }
    else { "9" };
    assert(r@ =~= seq![digit_char(d as nat)]);
    r
}

/// Appends the decimal notation of `n` to `s`.
fn push_decimal(s: &mut String, n: u32)
    ensures
        final(s)@ == old(s)@ + decimal(n as nat),
    decreases n,
{
    if n >= 10 {
        push_decimal(s, n / 10);
    }
    s.append(digit_str(n % 10));
    proof {
        if n >= 10 {
            assert(decimal(n as nat) == decimal((n / 10) as nat).push(digit_char((n % 10) as nat)));
        }
        assert(final(s)@ =~= old(s)@ + decimal(n as nat));
    }
}

impl CallSite {
    pub fn new(file: &str, line: u32, column: u32) -> (r: CallSite)
        ensures
            r@ == (file@, line, column),
    {
        CallSite { file: String::from_str(file), line, column }
    }

    /// A copy of this call site.
    pub fn duplicate(&self) -> (r: CallSite)
        ensures
            r == *self,
    {
        CallSite { file: self.file.clone(), line: self.line, column: self.column }
    }

    /// The `file:line:column` label that identifies this call site.
    pub fn location(&self) -> (r: String)
        ensures
            r@ == location_of(self@),
    {
        let mut s = self.file.clone();
        s.append(":");
        push_decimal(&mut s, self.line);
        s.append(":");
        push_decimal(&mut s, self.column);
        proof {
            reveal_strlit(":");
        }
        assert(s@ =~= location_of(self@));
        s
    }
}

} // verus!
