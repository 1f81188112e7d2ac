//! Text models shared by the builders: comma-separated lists.
use vstd::prelude::*;

verus! {

/// The characters of each piece of text, in order.
pub open spec fn texts(parts: Seq<&str>) -> Seq<Seq<char>> {
    parts.map_values(|p: &str| p@)
}

/// The pieces joined by `", "`, in the order given; empty for no pieces.
pub open spec fn comma_joined(parts: Seq<Seq<char>>) -> Seq<char>
    decreases parts.len(),
{
    if parts.len() == 0 {
        seq![]
    } else if parts.len() == 1 {
        parts[0]
    } else {
        comma_joined(parts.drop_last()) + seq![',', ' '] + parts.last()
    }
}

/// Appends the pieces of `parts` to `out`, separated by `", "`.
pub fn push_comma_joined(out: &mut String, parts: &[&str])
    ensures
        final(out)@ == old(out)@ + comma_joined(texts(parts@)),
{
    proof {
        reveal_strlit(", ");
    }
    assert(", "@ =~= seq![',', ' ']);
    let mut i: usize = 0;
    while i < parts.len()
        invariant
            0 <= i <= parts@.len(),
            ", "@ == seq![',', ' '],
            out@ == old(out)@ + comma_joined(texts(parts@).take(i as int)),
        decreases parts@.len() - i,
    {
        let ghost before = out@;
        if i > 0 {
            out.append(", ");
        }
        out.append(parts[i]);
        proof {
            let all = texts(parts@);
            assert(all.take(i + 1).drop_last() =~= all.take(i as int));
            assert(all.take(i + 1).last() == parts@[i as int]@);
            if i == 0 {
                assert(all.take(1) =~= seq![parts@[0]@]);
                assert(out@ =~= old(out)@ + comma_joined(all.take(1)));
            } else {
                assert(comma_joined(all.take(i + 1)) == comma_joined(all.take(i as int)) + seq![
                    ',',
                    ' ',
                ] + parts@[i as int]@);
                assert(out@ =~= old(out)@ + comma_joined(all.take(i + 1)));
            }
        }
        i += 1;
    }
    assert(texts(parts@).take(parts@.len() as int) =~= texts(parts@));
}

} // verus!
