//! Properties of the bridge that relate several of its operations, stated
//! over the mathematical models and proved once for all inputs.

use vstd::prelude::*;

use crate::bridge::{
    failure, lookup_command, spec_invoke, violation_message, BridgeV, ErrorKind,
};
use crate::command::{first_violation, CommandV, Violation};
use crate::plugin::{
    init_prefix_len, lemma_init_prefix_len_characterized, startup_trace, teardown_event, EventV,
    PluginV,
};
use crate::value::ArgsV;

verus! {

/// Arguments that violate a registered command's declared parameters — a
/// missing required parameter, or a type mismatch — are answered with
/// `InvalidArgument`, and the handler is never executed: the response is a
/// function of the violated parameter alone and does not depend on the
/// command's handler.
pub proof fn lemma_invalid_argument_skips_handler(
    b: BridgeV,
    name: Seq<char>,
    args: ArgsV,
    token: Seq<char>,
    c: CommandV,
    p: Seq<char>,
    v: Violation,
)
    requires
        b.phase is Ready,
        lookup_command(b.registry, name) == Some(c),
        first_violation(c.params, args) == Some((p, v)),
    ensures
        spec_invoke(b, name, args, token) == failure(
            token,
            ErrorKind::InvalidArgument,
            violation_message(v),
            Some(p),
        ),
{
}

/// A command name absent from the registry is answered `UnknownCommand`,
/// deterministically: whatever else either bridge holds and whatever the
/// arguments, the two responses agree, and each is the fixed
/// `UnknownCommand` failure for its token.
pub proof fn lemma_unknown_command_deterministic(
    b1: BridgeV,
    b2: BridgeV,
    name: Seq<char>,
    args1: ArgsV,
    args2: ArgsV,
    token: Seq<char>,
)
    requires
        b1.phase is Ready,
        b2.phase is Ready,
        lookup_command(b1.registry, name) is None,
        lookup_command(b2.registry, name) is None,
    ensures
        spec_invoke(b1, name, args1, token) == spec_invoke(b2, name, args2, token),
        spec_invoke(b1, name, args1, token) == failure(
            token,
            ErrorKind::UnknownCommand,
            "unknown command"@,
            None,
        ),
{
}

/// A successfully registered command is reachable: registering `c` in a
/// registry that lacks its name makes `c` the command that name resolves
/// to, and every other name resolves exactly as before. Together with
/// `spec_invoke`, a request for the new name is routed to `c` and requests
/// for the other registered commands are undisturbed.
pub proof fn lemma_registered_command_is_found(reg: Seq<CommandV>, c: CommandV)
    requires
        lookup_command(reg, c.name) is None,
    ensures
        lookup_command(reg.push(c), c.name) == Some(c),
        forall|n: Seq<char>|
            n != c.name ==> lookup_command(reg.push(c), n) == lookup_command(reg, n),
{
    lemma_lookup_push_same(reg, c);
    assert forall|n: Seq<char>| n != c.name implies lookup_command(reg.push(c), n)
        == lookup_command(reg, n) by {
        lemma_lookup_push_other(reg, c, n);
    }
}

proof fn lemma_lookup_push_same(reg: Seq<CommandV>, c: CommandV)
    requires
        lookup_command(reg, c.name) is None,
    ensures
        lookup_command(reg.push(c), c.name) == Some(c),
    decreases reg.len(),
{
    if reg.len() == 0 {
        assert(reg.push(c)[0] == c);
    } else {
        assert(reg.push(c)[0] == reg[0]);
        assert(reg.push(c).drop_first() =~= reg.drop_first().push(c));
        lemma_lookup_push_same(reg.drop_first(), c);
    }
}

proof fn lemma_lookup_push_other(reg: Seq<CommandV>, c: CommandV, n: Seq<char>)
    requires
        n != c.name,
    ensures
        lookup_command(reg.push(c), n) == lookup_command(reg, n),
    decreases reg.len(),
{
    if reg.len() == 0 {
        assert(reg.push(c)[0] == c);
        assert(reg.push(c).drop_first() =~= Seq::<CommandV>::empty());
    } else {
        assert(reg.push(c)[0] == reg[0]);
        assert(reg.push(c).drop_first() =~= reg.drop_first().push(c));
        lemma_lookup_push_other(reg.drop_first(), c, n);
    }
}

/// When some plugin's initialization fails, the startup trace holds the
/// successful initializations in declared order, then the one failure, then
/// one teardown event for each initialized plugin — each exactly once, in
/// reverse initialization order — and nothing else. Together with
/// `Bridge::startup`'s contract (which ends `Stopped` on this path), the
/// bridge never reaches `Ready`.
pub proof fn lemma_failed_startup_tears_down_in_reverse(ps: Seq<PluginV>)
    requires
        init_prefix_len(ps) < ps.len(),
    ensures
        ({
            let k = init_prefix_len(ps);
            let tr = startup_trace(ps);
            &&& tr.len() == 2 * k + 1
            &&& forall|i: int| 0 <= i < k ==> tr[i] == EventV::InitOk(ps[i].id)
            &&& tr[k] == EventV::InitFailed(ps[k].id)
            &&& forall|i: int| 0 <= i < k ==> #[trigger] tr[k + 1 + i] == teardown_event(
                ps[k - 1 - i],
            )
        }),
{
    lemma_init_prefix_len_characterized(ps);
}

} // verus!
