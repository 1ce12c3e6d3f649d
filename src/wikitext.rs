use vstd::prelude::*;
use vstd::std_specs::iter::IteratorSpec;

verus! {

/// The text of `s` outside every `{{ ... }}` macro, when scanning starts
/// `depth` macros deep. Macros nest; a `}}` that closes no open macro is
/// ordinary text, and a macro that is never closed runs to the end.
pub open spec fn strip_macros(s: Seq<char>, depth: nat) -> Seq<char>
    decreases s.len(),
{
    if s.len() == 0 {
        Seq::empty()
    } else if s.len() >= 2 && s[0] == '{' && s[1] == '{' {
        strip_macros(s.skip(2), depth + 1)
    } else if s.len() >= 2 && s[0] == '}' && s[1] == '}' && depth > 0 {
        strip_macros(s.skip(2), (depth - 1) as nat)
    } else if depth == 0 {
        seq![s[0]] + strip_macros(s.skip(1), depth)
    } else {
        strip_macros(s.skip(1), depth)
    }
}

/// Relies on `String::push`: appends one character at the end.
#[verifier::external_body]
pub(crate) fn push_char(s: &mut String, c: char)
    ensures
        final(s)@ == old(s)@.push(c),
{
    s.push(c);
}

/// The characters of `text`, read once from front to back.
fn chars_of(text: &str) -> (r: Vec<char>)
    ensures
        r@ == text@,
{
    broadcast use vstd::string::group_string_axioms;

    let mut it = text.chars();
    let mut out: Vec<char> = Vec::new();
    loop
        invariant
            out@ + it.remaining() == text@,
            it.obeys_prophetic_iter_laws(),
            it.decrease() is Some,
        ensures
            out@ =~= text@,
        decreases it.decrease()->0,
    {
        match it.next() {
            Some(c) => {
                out.push(c);
            },
            None => {
                assert(out@ + it.remaining() =~= out@);
                break;
            },
        }
    }
    assert(out@ =~= text@);
    out
}

/// Removes wikitext macros, nested ones included: `stuff{{123}}` becomes `stuff`.
pub fn clean_wikitext(text: &str) -> (r: String)
    ensures
        r@ == strip_macros(text@, 0),
{
    let cs = chars_of(text);
    let n = cs.len();
    let mut out = String::new();
    let mut i: usize = 0;
    let mut depth: usize = 0;
    assert(text@.skip(0) =~= text@);
    assert(out@ + strip_macros(text@, 0) =~= strip_macros(text@, 0));
    while i < n
        invariant
            n == text@.len(),
            cs@ == text@,
            i <= n,
            depth <= i,
            out@ + strip_macros(text@.skip(i as int), depth as nat) == strip_macros(text@, 0),
        decreases n - i,
    {
        let ghost rest = text@.skip(i as int);
        let c = cs[i];
        let two = i + 1 < n;
        let d = if two { cs[i + 1] } else { c };
        if two && c == '{' && d == '{' {
            assert(rest.skip(2) =~= text@.skip(i + 2));
            depth = depth + 1;
            i = i + 2;
        } else if two && c == '}' && d == '}' && depth > 0 {
            assert(rest.skip(2) =~= text@.skip(i + 2));
            depth = depth - 1;
            i = i + 2;
        } else {
            assert(rest.skip(1) =~= text@.skip(i + 1));
            if depth == 0 {
                let ghost before = out@;
                push_char(&mut out, c);
                assert(out@ + strip_macros(text@.skip(i + 1), 0) =~= before + (seq![c]
                    + strip_macros(rest.skip(1), 0)));
            }
            i = i + 1;
        }
    }
    assert(text@.skip(n as int) =~= Seq::<char>::empty());
    out
}

} // verus!
