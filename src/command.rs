//! Turning a batch of shell commands into the single command line that one
//! remote channel runs.

use vstd::prelude::*;

verus! {

/// The text of each command of a batch.
pub open spec fn command_views(commands: Seq<&str>) -> Seq<Seq<char>> {
    commands.map_values(|c: &str| c@)
}

/// The commands of a batch, in order, with `;` between each two of them.
pub open spec fn joined(commands: Seq<Seq<char>>) -> Seq<char>
    decreases commands.len(),
{
    if commands.len() == 0 {
        seq![]
    } else if commands.len() == 1 {
        commands[0]
    } else {
        joined(commands.drop_last()) + seq![';'] + commands.last()
    }
}

/// Joins the commands of a batch with `;` into one shell command line, so
/// that they run one after the other in a single shell.
pub fn join_commands(commands: &[&str]) -> (r: String)
    ensures
        r@ == joined(command_views(commands@)),
{
    let mut out = String::new();
    let mut i: usize = 0;
    while i < commands.len()
        invariant
            i <= commands.len(),
            out@ == joined(command_views(commands@.subrange(0, i as int))),
        decreases commands.len() - i,
    {
        let ghost before = command_views(commands@.subrange(0, i as int));
        let ghost prev = out@;
        if i > 0 {
            out.append(";");
            proof {
                reveal_strlit(";");
            }
            assert(out@ == prev + seq![';']);
        }
        out.append(commands[i]);
        i = i + 1;
        proof {
            let now = command_views(commands@.subrange(0, i as int));
            assert(now.drop_last() =~= before);
            assert(now.last() == commands@[i - 1]@);
            if i == 1 {
                assert(before.len() == 0);
                assert(out@ =~= now[0]);
            } else {
                assert(out@ =~= joined(before) + seq![';'] + now.last());
            }
        }
    }
    assert(commands@.subrange(0, commands.len() as int) =~= commands@);
    out
}

/// Two commands run as the first, a `;`, then the second: both run, in the
/// order given, as in one shell line.
pub proof fn lemma_join_two(first: Seq<char>, second: Seq<char>)
    ensures
        joined(seq![first, second]) == first + seq![';'] + second,
{
    let both = seq![first, second];
    assert(both.drop_last() =~= seq![first]);
    assert(joined(seq![first]) == first);
}

/// An empty batch becomes the empty command line.
pub proof fn lemma_join_empty()
    ensures
        joined(Seq::<Seq<char>>::empty()) == Seq::<char>::empty(),
{
}

} // verus!
