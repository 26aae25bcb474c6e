//! Text layout shared by the rendering of positions and cards: a title line
//! underlined by dashes.
use vstd::prelude::*;
use vstd::string::*;

verus! {

/// `n` dashes.
pub open spec fn dashes(n: nat) -> Seq<char> {
    Seq::new(n, |i: int| '-')
}

/// A title, a newline, one dash per character of the title, a newline.
pub open spec fn titled(title: Seq<char>) -> Seq<char> {
    title.push('\n') + dashes(title.len()).push('\n')
}

/// `text` starts with the line `title`, followed by a line of exactly as
/// many dashes as `title` has characters.
pub open spec fn starts_with_underlined(text: Seq<char>, title: Seq<char>) -> bool {
    let n = title.len() as int;
    &&& text.len() >= 2 * n + 2
    &&& text.subrange(0, n) == title
    &&& text[n] == '\n'
    &&& forall|i: int| n + 1 <= i < 2 * n + 1 ==> text[i] == '-'
    &&& text[2 * n + 1] == '\n'
}

/// Any text that begins with `titled(title)` has its title underlined by a
/// dash line of the title's character count.
pub proof fn lemma_titled_prefix(title: Seq<char>, rest: Seq<char>)
    ensures
        starts_with_underlined(titled(title) + rest, title),
{
    let n = title.len() as int;
    let t = titled(title) + rest;
    assert(titled(title).len() == 2 * n + 2);
    assert(t.subrange(0, n) =~= title);
    assert forall|i: int| n + 1 <= i < 2 * n + 1 implies t[i] == '-' by {
        assert(t[i] == titled(title)[i]);
        assert(titled(title)[i] == dashes(title.len())[i - n - 1]);
    }
}

/// Appends `title`, a newline, a dash for each character of `title` and a
/// newline to `out`.
pub fn push_titled(out: &mut String, title: &String)
    ensures
        final(out)@ == old(out)@ + titled(title@),
{
    proof {
        reveal_strlit("\n");
        reveal_strlit("-");
    }
    out.append(title.as_str());
    out.append("\n");
    let n: usize = title.as_str().unicode_len();
    let ghost start = out@;
    let mut i: usize = 0;
    while i < n
        invariant
            n == title@.len(),
            i <= n,
            out@ == start + dashes(i as nat),
        decreases n - i,
    {
        proof {
            reveal_strlit("-");
        }
        out.append("-");
        i = i + 1;
        assert(out@ =~= start + dashes(i as nat));
    }
    proof {
        reveal_strlit("\n");
    }
    out.append("\n");
    assert(final(out)@ =~= old(out)@ + titled(title@)) by {
        assert(start =~= old(out)@ + title@.push('\n'));
    }
}

} // verus!
