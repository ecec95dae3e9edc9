//! Error reports.
use vstd::prelude::*;

use crate::text::views;

verus! {

/// The line that introduces each cause of an error: `Caused by:`, a line
/// break and a tab.
pub open spec fn caused_by() -> Seq<char> {
    "Caused by:\n\t"@
}

/// The report of the causes of an error: for each, `Caused by:`, a line
/// break, a tab, the cause and a line break.
pub open spec fn causes_text(causes: Seq<Seq<char>>) -> Seq<char>
    decreases causes.len(),
{
    if causes.len() == 0 {
        Seq::<char>::empty()
    } else {
        causes_text(causes.drop_last()) + caused_by() + causes.last() + seq!['\n']
    }
}

/// The report of an error and the chain of its causes: the error's message
/// and an empty line, then each cause (innermost last) under `Caused by:`.
pub fn error_chain_fmt(error: &str, causes: &Vec<String>) -> (r: String)
    ensures
        r@ == error@ + seq!['\n', '\n'] + causes_text(views(causes@)),
{
    proof {
        reveal_strlit("\n\n");
        reveal_strlit("\n");
    }
    let mut out = error.to_owned();
    out.append("\n\n");
    assert(out@ =~= error@ + seq!['\n', '\n'] + causes_text(views(causes@).take(0)));
    let n = causes.len();
    let mut i: usize = 0;
    while i < n
        invariant
            n == causes@.len(),
            i <= n,
            out@ == error@ + seq!['\n', '\n'] + causes_text(views(causes@).take(i as int)),
        decreases n - i,
    {
        let ghost pre = out@;
        let ghost post = views(causes@).take(i + 1);
        assert(post.drop_last() =~= views(causes@).take(i as int));
        assert(post.last() == causes@[i as int]@);
        proof {
            reveal_strlit("\n");
        }
        assert("\n"@ =~= seq!['\n']);
        out.append("Caused by:\n\t");
        out.append(causes[i].as_str());
        out.append("\n");
        assert(out@ =~= error@ + seq!['\n', '\n'] + causes_text(post));
        i = i + 1;
    }
    assert(views(causes@).take(n as int) =~= views(causes@));
    out
}

} // verus!
