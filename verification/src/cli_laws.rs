//! Laws of reading the command line: what the command line gives is never
//! replaced by the environment or a default, and whatever command line is
//! read without error converts into a command, since reading keeps every
//! value in the form its argument takes and the defaults fill every flag and
//! every argument that a command needs.

use vstd::prelude::*;
use crate::cli::{
    cli_from, command_from, common_from, first_arg_index, get_flag, get_matches_spec, get_one, get_u16, get_u32_opt,
    lookup_matched, matched_of, pick_global, MatchedSpec,
};
use crate::grammar;
use crate::args::{
    cmd_wf, fill_slot, fill_slots, find_long, find_short, initial_state, long_arg, named_arg, parse_command,
    record_flag, record_value, run, short_cluster, split_value, step, true_text, value_ok, values_ok, ArgKind,
    ArgSpec, CmdSpec, PState, SlotSpec, ValueType,
};

verus! {

/// What a grammar must hold for every reading to convert: a flag takes a
/// boolean, only a repeatable argument splits its values, and a default is a
/// value its argument accepts.
pub open spec fn arg_ok(a: ArgSpec) -> bool {
    &&& a.kind == ArgKind::Flag ==> a.value_type == ValueType::Bool
    &&& a.kind != ArgKind::Append ==> a.delimiter is None
    &&& a.default matches Some(d) ==> value_ok(a.value_type, d)
}

pub open spec fn args_ok(args: Seq<ArgSpec>) -> bool {
    forall|i: int| 0 <= i < args.len() ==> #[trigger] arg_ok(args[i])
}

/// A slot that was read holds values its argument accepts: any number for a
/// repeatable argument, one otherwise; a slot not read holds none.
pub open spec fn slot_ok(a: ArgSpec, s: SlotSpec) -> bool {
    if s.present {
        values_ok(a.value_type, s.values) && (a.kind != ArgKind::Append ==> s.values.len() == 1)
    } else {
        s.values.len() == 0
    }
}

pub open spec fn slots_ok(args: Seq<ArgSpec>, slots: Seq<SlotSpec>) -> bool {
    &&& slots.len() == args.len()
    &&& forall|i: int| 0 <= i < args.len() ==> #[trigger] slot_ok(args[i], slots[i])
}

/// A reading state whose slots are sound and whose waiting option exists.
pub open spec fn state_ok(c: CmdSpec, st: PState) -> bool {
    &&& slots_ok(c.args, st.slots)
    &&& st.pending matches Some(a) ==> 0 <= a < c.args.len() && c.args[a].kind != ArgKind::Flag
    &&& 0 <= st.pos
}

proof fn lemma_find_long_in_range(args: Seq<ArgSpec>, name: Seq<char>, from: int)
    ensures
        find_long(args, name, from) matches Some(a) ==> 0 <= a < args.len(),
    decreases args.len() - from,
{
    if 0 <= from < args.len() {
        lemma_find_long_in_range(args, name, from + 1);
    }
}

proof fn lemma_find_short_in_range(args: Seq<ArgSpec>, c: char, from: int)
    ensures
        find_short(args, c, from) matches Some(a) ==> 0 <= a < args.len(),
    decreases args.len() - from,
{
    if 0 <= from < args.len() {
        lemma_find_short_in_range(args, c, from + 1);
    }
}

proof fn lemma_record_flag(c: CmdSpec, st: PState, a: int)
    requires
        state_ok(c, st),
        args_ok(c.args),
        0 <= a < c.args.len(),
        c.args[a].kind == ArgKind::Flag,
    ensures
        record_flag(st, a) matches Ok(s2) ==> state_ok(c, s2),
{
    if let Ok(s2) = record_flag(st, a) {
        assert(arg_ok(c.args[a]));
        assert(value_ok(c.args[a].value_type, true_text()));
        assert forall|i: int| 0 <= i < c.args.len() implies #[trigger] slot_ok(c.args[i], s2.slots[i]) by {
            if i != a {
                assert(slot_ok(c.args[i], st.slots[i]));
            }
        }
    }
}

proof fn lemma_record_value(c: CmdSpec, st: PState, a: int, v: Seq<char>)
    requires
        state_ok(c, st),
        args_ok(c.args),
        0 <= a < c.args.len(),
    ensures
        record_value(c.args, st, a, v) matches Ok(s2) ==> slots_ok(c.args, s2.slots) && s2.pending == st.pending
            && s2.pos == st.pos && s2.trailing == st.trailing,
{
    if let Ok(s2) = record_value(c.args, st, a, v) {
        let arg = c.args[a];
        assert(arg_ok(arg));
        let vs = split_value(v, arg.delimiter);
        assert forall|i: int| 0 <= i < c.args.len() implies #[trigger] slot_ok(c.args[i], s2.slots[i]) by {
            if i != a {
                assert(slot_ok(c.args[i], st.slots[i]));
            } else if arg.kind == ArgKind::Append {
                assert(slot_ok(c.args[a], st.slots[a]));
                let old = st.slots[a].values;
                if st.slots[a].present {
                    assert forall|j: int| 0 <= j < (old + vs).len() implies #[trigger] value_ok(arg.value_type, (old + vs)[j]) by {
                        if j < old.len() {
                            assert(value_ok(arg.value_type, old[j]));
                        } else {
                            assert(value_ok(arg.value_type, vs[j - old.len()]));
                        }
                    }
                } else {
                    assert(old + vs =~= vs);
                }
            } else {
                assert(vs == seq![v]);
            }
        }
    }
}


proof fn lemma_named_arg(c: CmdSpec, st: PState, a: int)
    requires
        state_ok(c, st),
        args_ok(c.args),
        0 <= a < c.args.len(),
    ensures
        named_arg(c, st, a) matches Ok(s2) ==> state_ok(c, s2),
{
    if c.args[a].kind == ArgKind::Flag {
        lemma_record_flag(c, st, a);
    }
}

proof fn lemma_long_arg(c: CmdSpec, st: PState, body: Seq<char>, ti: usize)
    requires
        state_ok(c, st),
        args_ok(c.args),
    ensures
        long_arg(c, st, body, ti) matches Ok(s2) ==> state_ok(c, s2),
{
    let eq = crate::args::first_index_of(body, '=');
    let name = match eq {
        Some(e) => body.take(e),
        None => body,
    };
    lemma_find_long_in_range(c.args, name, 0);
    match find_long(c.args, name, 0) {
        None => {},
        Some(a) => match eq {
            None => lemma_named_arg(c, st, a),
            Some(e) => lemma_record_value(c, st, a, body.skip(e + 1)),
        },
    }
}

proof fn lemma_short_cluster(c: CmdSpec, st: PState, cs: Seq<char>, ti: usize)
    requires
        state_ok(c, st),
        args_ok(c.args),
    ensures
        short_cluster(c, st, cs, ti) matches Ok(s2) ==> state_ok(c, s2),
    decreases cs.len(),
{
    if cs.len() > 0 {
        lemma_find_short_in_range(c.args, cs[0], 0);
        match find_short(c.args, cs[0], 0) {
            None => {},
            Some(a) => {
                let rest = cs.drop_first();
                match c.args[a].kind {
                    ArgKind::Flag => {
                        lemma_record_flag(c, st, a);
                        match record_flag(st, a) {
                            Err(_) => {},
                            Ok(s2) => lemma_short_cluster(c, s2, rest, ti),
                        }
                    },
                    ArgKind::Single | ArgKind::Append => {
                        if rest.len() > 0 {
                            if rest[0] == '=' {
                                lemma_record_value(c, st, a, rest.drop_first());
                            } else {
                                lemma_record_value(c, st, a, rest);
                            }
                        }
                    },
                    _ => lemma_named_arg(c, st, a),
                }
            },
        }
    }
}

proof fn lemma_step(c: CmdSpec, st: PState, t: Seq<char>, ti: usize)
    requires
        state_ok(c, st),
        args_ok(c.args),
        cmd_wf(c),
    ensures
        step(c, st, t, ti) matches Ok(s2) ==> state_ok(c, s2),
{
    if !st.trailing && t == crate::args::escape_text() {
    } else if !st.trailing && t.len() >= 2 && t[0] == '-' {
        if st.pending is None {
            if t[1] == '-' {
                lemma_long_arg(c, st, t.skip(2), ti);
            } else {
                lemma_short_cluster(c, st, t.drop_first(), ti);
            }
        }
    } else {
        match st.pending {
            Some(a) => lemma_record_value(c, PState { pending: None, ..st }, a, t),
            None => if st.pos < c.positionals.len() {
                assert(c.positionals[st.pos] < c.args.len());
                lemma_record_value(c, PState { pos: st.pos + 1, ..st }, c.positionals[st.pos] as int, t);
            },
        }
    }
}

proof fn lemma_run(c: CmdSpec, st: PState, toks: Seq<Seq<char>>, i: int)
    requires
        state_ok(c, st),
        args_ok(c.args),
        cmd_wf(c),
    ensures
        run(c, st, toks, i) matches Ok((s2, _)) ==> state_ok(c, s2),
    decreases toks.len() - i,
{
    if 0 <= i < toks.len() {
        if !st.trailing && st.pending is None && crate::args::find_sub(c.subcommands, toks[i], 0) is Some {
        } else {
            lemma_step(c, st, toks[i], i as usize);
            match step(c, st, toks[i], i as usize) {
                Err(_) => {},
                Ok(s2) => lemma_run(c, s2, toks, i + 1),
            }
        }
    }
}


proof fn lemma_fill_slot(a: ArgSpec, s: SlotSpec, idx: int, env: Seq<(Seq<char>, Seq<char>)>)
    requires
        arg_ok(a),
        slot_ok(a, s),
    ensures
        fill_slot(a, s, idx, env) matches Ok(s2) ==> slot_ok(a, s2) && (a.default is Some ==> s2.present),
{
}

proof fn lemma_fill_slots(args: Seq<ArgSpec>, slots: Seq<SlotSpec>, env: Seq<(Seq<char>, Seq<char>)>, k: int)
    requires
        args_ok(args),
        slots_ok(args, slots),
        0 <= k <= args.len(),
    ensures
        fill_slots(args, slots, env, k) matches Ok(s2) ==> slots_ok(args, s2) && forall|j: int|
            0 <= j < k && (#[trigger] args[j]).default is Some ==> s2[j].present,
    decreases k,
{
    if k > 0 {
        lemma_fill_slots(args, slots, env, k - 1);
        match fill_slots(args, slots, env, k - 1) {
            Err(_) => {},
            Ok(s1) => {
                assert(arg_ok(args[k - 1]));
                assert(slot_ok(args[k - 1], s1[k - 1]));
                lemma_fill_slot(args[k - 1], s1[k - 1], k - 1, env);
                match fill_slot(args[k - 1], s1[k - 1], k - 1, env) {
                    Err(_) => {},
                    Ok(one) => {
                        let s2 = s1.update(k - 1, one);
                        assert forall|i: int| 0 <= i < args.len() implies #[trigger] slot_ok(args[i], s2[i]) by {
                            if i != k - 1 {
                                assert(slot_ok(args[i], s1[i]));
                            }
                        }
                    },
                }
            },
        }
    }
}

/// A command's reading, where it succeeds, gives sound slots, and every
/// argument with a default is present.
proof fn lemma_parse_command(c: CmdSpec, toks: Seq<Seq<char>>, start: int, env: Seq<(Seq<char>, Seq<char>)>)
    requires
        args_ok(c.args),
        cmd_wf(c),
    ensures
        parse_command(c, toks, start, env) matches Ok((slots, _)) ==> {
            &&& slots_ok(c.args, slots)
            &&& forall|j: int| 0 <= j < c.args.len() && (#[trigger] c.args[j]).default is Some ==> slots[j].present
        },
{
    let st0 = initial_state(c);
    assert forall|i: int| 0 <= i < c.args.len() implies #[trigger] slot_ok(c.args[i], st0.slots[i]) by {
    }
    lemma_run(c, st0, toks, start);
    match run(c, st0, toks, start) {
        Err(_) => {},
        Ok((st, _)) => {
            if st.pending is None {
                lemma_fill_slots(c.args, st.slots, env, c.args.len() as int);
            }
        },
    }
}


proof fn lemma_lookup_in_range(a: Seq<MatchedSpec>, id: Seq<char>, from: int)
    ensures
        lookup_matched(a, id, from) matches Some(i) ==> from <= i < a.len() && a[i].id == id,
    decreases a.len() - from,
{
    if 0 <= from < a.len() && a[from].id != id {
        lemma_lookup_in_range(a, id, from + 1);
    }
}

proof fn lemma_lookup_push(a: Seq<MatchedSpec>, x: MatchedSpec, id: Seq<char>, from: int)
    requires
        0 <= from <= a.len(),
    ensures
        lookup_matched(a.push(x), id, from) == match lookup_matched(a, id, from) {
            Some(i) => Some(i),
            None => if x.id == id { Some(a.len() as int) } else { None },
        },
    decreases a.len() - from,
{
    if from < a.len() {
        assert(a.push(x)[from] == a[from]);
        if a[from].id != id {
            lemma_lookup_push(a, x, id, from + 1);
        }
    } else {
        assert(a.push(x)[from] == x);
        assert(lookup_matched(a.push(x), id, from + 1) is None);
    }
}

/// No argument but `k` has the name of argument `k`.
pub open spec fn name_unique(args: Seq<ArgSpec>, k: int) -> bool {
    forall|j: int| 0 <= j < args.len() && j != k ==> (#[trigger] args[j]).id != args[k].id
}

proof fn lemma_lookup_absent(args: Seq<ArgSpec>, slots: Seq<SlotSpec>, n: int, id: Seq<char>)
    requires
        0 <= n <= args.len(),
        forall|j: int| 0 <= j < n ==> (#[trigger] args[j]).id != id,
    ensures
        lookup_matched(matched_of(args, slots, n), id, 0) is None,
    decreases n,
{
    if n > 0 {
        lemma_lookup_absent(args, slots, n - 1, id);
        let prev = matched_of(args, slots, n - 1);
        if slots[n - 1].present {
            let x = MatchedSpec { id: args[n - 1].id, values: slots[n - 1].values, source: slots[n - 1].source };
            lemma_lookup_push(prev, x, id, 0);
        }
    }
}

/// Where no other argument shares the name of argument `k`, looking it up
/// finds its values where it is present, and nothing where it is not.
proof fn lemma_lookup_matched_of(args: Seq<ArgSpec>, slots: Seq<SlotSpec>, n: int, k: int)
    requires
        0 <= k < n <= args.len(),
        forall|j: int| 0 <= j < n && j != k ==> (#[trigger] args[j]).id != args[k].id,
    ensures
        slots[k].present ==> (lookup_matched(matched_of(args, slots, n), args[k].id, 0) matches Some(i) && 0 <= i
            < matched_of(args, slots, n).len() && matched_of(args, slots, n)[i].values == slots[k].values),
        !slots[k].present ==> lookup_matched(matched_of(args, slots, n), args[k].id, 0) is None,
    decreases n,
{
    let prev = matched_of(args, slots, n - 1);
    let x = MatchedSpec { id: args[n - 1].id, values: slots[n - 1].values, source: slots[n - 1].source };
    if k == n - 1 {
        lemma_lookup_absent(args, slots, n - 1, args[k].id);
        if slots[n - 1].present {
            lemma_lookup_push(prev, x, args[k].id, 0);
            assert(prev.push(x)[prev.len() as int] == x);
        }
    } else {
        lemma_lookup_matched_of(args, slots, n - 1, k);
        assert(args[n - 1].id != args[k].id);
        if slots[n - 1].present {
            lemma_lookup_push(prev, x, args[k].id, 0);
            lemma_lookup_in_range(prev, args[k].id, 0);
            match lookup_matched(prev, args[k].id, 0) {
                Some(i) => assert(prev.push(x)[i] == prev[i]),
                None => {},
            }
        }
    }
}


// ── Reading values out of sound slots ─────────────────────────────────

proof fn lemma_get_one(args: Seq<ArgSpec>, slots: Seq<SlotSpec>, k: int)
    requires
        0 <= k < args.len(),
        name_unique(args, k),
        slot_ok(args[k], slots[k]),
        args[k].kind != ArgKind::Append,
    ensures
        slots[k].present ==> get_one(matched_of(args, slots, args.len() as int), args[k].id) == Some(slots[k].values[0]),
        !slots[k].present ==> get_one(matched_of(args, slots, args.len() as int), args[k].id) is None,
{
    lemma_lookup_matched_of(args, slots, args.len() as int, k);
}

proof fn lemma_get_flag(args: Seq<ArgSpec>, slots: Seq<SlotSpec>, k: int)
    requires
        0 <= k < args.len(),
        name_unique(args, k),
        slot_ok(args[k], slots[k]),
        arg_ok(args[k]),
        args[k].kind == ArgKind::Flag,
        slots[k].present,
    ensures
        get_flag(matched_of(args, slots, args.len() as int), args[k].id) is Some,
{
    lemma_get_one(args, slots, k);
    assert(value_ok(args[k].value_type, slots[k].values[0]));
}

proof fn lemma_get_u32_opt(args: Seq<ArgSpec>, slots: Seq<SlotSpec>, k: int)
    requires
        0 <= k < args.len(),
        name_unique(args, k),
        slot_ok(args[k], slots[k]),
        args[k].kind != ArgKind::Append,
        args[k].value_type == ValueType::U32,
    ensures
        get_u32_opt(matched_of(args, slots, args.len() as int), args[k].id) is Some,
{
    lemma_get_one(args, slots, k);
    if slots[k].present {
        assert(value_ok(args[k].value_type, slots[k].values[0]));
    }
}

proof fn lemma_get_u16(args: Seq<ArgSpec>, slots: Seq<SlotSpec>, k: int)
    requires
        0 <= k < args.len(),
        name_unique(args, k),
        slot_ok(args[k], slots[k]),
        args[k].kind != ArgKind::Append,
        args[k].value_type == ValueType::U16,
        slots[k].present,
    ensures
        get_u16(matched_of(args, slots, args.len() as int), args[k].id) is Some,
{
    lemma_get_one(args, slots, k);
    assert(value_ok(args[k].value_type, slots[k].values[0]));
}

// ── The grammar of KoShelf ────────────────────────────────────────────

proof fn lemma_value_3000()
    ensures
        value_ok(ValueType::U16, seq!['3', '0', '0', '0']),
{
    let s = seq!['3', '0', '0', '0'];
    assert forall|i: int| 0 <= i < s.len() implies #[trigger] crate::text::is_ascii_digit(s[i]) by {
        assert(i == 0 || i == 1 || i == 2 || i == 3);
    }
    reveal_with_fuel(crate::text::decimal_value, 5);
    assert(s.drop_last().drop_last().drop_last() =~= seq!['3']);
    assert(s.drop_last().drop_last() =~= seq!['3', '0']);
    assert(s.drop_last() =~= seq!['3', '0', '0']);
    assert(seq!['3'].drop_last() =~= Seq::<char>::empty());
}

proof fn lemma_serve_grammar()
    ensures
        args_ok(grammar::serve_command_spec().args),
        cmd_wf(grammar::serve_command_spec()),
        name_unique(grammar::serve_command_spec().args, 6),
        name_unique(grammar::serve_command_spec().args, 7),
        name_unique(grammar::serve_command_spec().args, 9),
        name_unique(grammar::serve_command_spec().args, 10),
        name_unique(grammar::serve_command_spec().args, 12),
        name_unique(grammar::serve_command_spec().args, 14),
        name_unique(grammar::serve_command_spec().args, 16),
        name_unique(grammar::serve_command_spec().args, 17),
        name_unique(grammar::serve_command_spec().args, 18),
        name_unique(grammar::serve_command_spec().args, 19),
        name_unique(grammar::serve_command_spec().args, 20),
{
    reveal(grammar::serve_command_spec);
    let args = grammar::serve_command_spec().args;
    lemma_value_3000();
    assert forall|i: int| 0 <= i < args.len() implies #[trigger] arg_ok(args[i]) by {
        assert(args[i].default matches Some(d) ==> value_ok(args[i].value_type, d));
    }
    assert forall|j: int| 0 <= j < args.len() && j != 6 implies (#[trigger] args[j]).id != args[6].id by {
        assert(args[j].id != args[6].id);
    }
    assert forall|j: int| 0 <= j < args.len() && j != 7 implies (#[trigger] args[j]).id != args[7].id by {
        assert(args[j].id != args[7].id);
    }
    assert forall|j: int| 0 <= j < args.len() && j != 9 implies (#[trigger] args[j]).id != args[9].id by {
        assert(args[j].id != args[9].id);
    }
    assert forall|j: int| 0 <= j < args.len() && j != 10 implies (#[trigger] args[j]).id != args[10].id by {
        assert(args[j].id != args[10].id);
    }
    assert forall|j: int| 0 <= j < args.len() && j != 12 implies (#[trigger] args[j]).id != args[12].id by {
        assert(args[j].id != args[12].id);
    }
    assert forall|j: int| 0 <= j < args.len() && j != 14 implies (#[trigger] args[j]).id != args[14].id by {
        assert(args[j].id != args[14].id);
    }
    assert forall|j: int| 0 <= j < args.len() && j != 16 implies (#[trigger] args[j]).id != args[16].id by {
        assert(args[j].id != args[16].id);
    }
    assert forall|j: int| 0 <= j < args.len() && j != 17 implies (#[trigger] args[j]).id != args[17].id by {
        assert(args[j].id != args[17].id);
    }
    assert forall|j: int| 0 <= j < args.len() && j != 18 implies (#[trigger] args[j]).id != args[18].id by {
        assert(args[j].id != args[18].id);
    }
    assert forall|j: int| 0 <= j < args.len() && j != 19 implies (#[trigger] args[j]).id != args[19].id by {
        assert(args[j].id != args[19].id);
    }
    assert forall|j: int| 0 <= j < args.len() && j != 20 implies (#[trigger] args[j]).id != args[20].id by {
        assert(args[j].id != args[20].id);
    }
}

proof fn lemma_export_grammar()
    ensures
        args_ok(grammar::export_command_spec().args),
        cmd_wf(grammar::export_command_spec()),
        name_unique(grammar::export_command_spec().args, 6),
        name_unique(grammar::export_command_spec().args, 7),
        name_unique(grammar::export_command_spec().args, 9),
        name_unique(grammar::export_command_spec().args, 10),
        name_unique(grammar::export_command_spec().args, 12),
        name_unique(grammar::export_command_spec().args, 14),
        name_unique(grammar::export_command_spec().args, 16),
        name_unique(grammar::export_command_spec().args, 17),
        name_unique(grammar::export_command_spec().args, 19),
        name_unique(grammar::export_command_spec().args, 20),
{
    reveal(grammar::export_command_spec);
    let args = grammar::export_command_spec().args;
    assert forall|i: int| 0 <= i < args.len() implies #[trigger] arg_ok(args[i]) by {
        assert(args[i].default matches Some(d) ==> value_ok(args[i].value_type, d));
    }
    assert forall|j: int| 0 <= j < args.len() && j != 6 implies (#[trigger] args[j]).id != args[6].id by {
        assert(args[j].id != args[6].id);
    }
    assert forall|j: int| 0 <= j < args.len() && j != 7 implies (#[trigger] args[j]).id != args[7].id by {
        assert(args[j].id != args[7].id);
    }
    assert forall|j: int| 0 <= j < args.len() && j != 9 implies (#[trigger] args[j]).id != args[9].id by {
        assert(args[j].id != args[9].id);
    }
    assert forall|j: int| 0 <= j < args.len() && j != 10 implies (#[trigger] args[j]).id != args[10].id by {
        assert(args[j].id != args[10].id);
    }
    assert forall|j: int| 0 <= j < args.len() && j != 12 implies (#[trigger] args[j]).id != args[12].id by {
        assert(args[j].id != args[12].id);
    }
    assert forall|j: int| 0 <= j < args.len() && j != 14 implies (#[trigger] args[j]).id != args[14].id by {
        assert(args[j].id != args[14].id);
    }
    assert forall|j: int| 0 <= j < args.len() && j != 16 implies (#[trigger] args[j]).id != args[16].id by {
        assert(args[j].id != args[16].id);
    }
    assert forall|j: int| 0 <= j < args.len() && j != 17 implies (#[trigger] args[j]).id != args[17].id by {
        assert(args[j].id != args[17].id);
    }
    assert forall|j: int| 0 <= j < args.len() && j != 19 implies (#[trigger] args[j]).id != args[19].id by {
        assert(args[j].id != args[19].id);
    }
    assert forall|j: int| 0 <= j < args.len() && j != 20 implies (#[trigger] args[j]).id != args[20].id by {
        assert(args[j].id != args[20].id);
    }
}

proof fn lemma_top_grammar()
    ensures
        args_ok(grammar::top_command_spec().args),
        cmd_wf(grammar::top_command_spec()),
{
    let top = grammar::top_command_spec().args;
    assert forall|i: int| 0 <= i < top.len() implies #[trigger] arg_ok(top[i]) by {
    }
}

proof fn lemma_other_grammars()
    ensures
        args_ok(grammar::set_password_command_spec().args),
        cmd_wf(grammar::set_password_command_spec()),
        name_unique(grammar::set_password_command_spec().args, 3),
        name_unique(grammar::set_password_command_spec().args, 4),
        args_ok(grammar::top_command_spec().args),
        cmd_wf(grammar::top_command_spec()),
        forall|k: int| 3 <= k < 6 ==> args_ok(#[trigger] grammar::subcommand_spec(k).args) && cmd_wf(grammar::subcommand_spec(k)),
{
    reveal(grammar::set_password_command_spec);
    reveal(grammar::list_languages_command_spec);
    reveal(grammar::licenses_command_spec);
    reveal(grammar::github_command_spec);
    let args = grammar::set_password_command_spec().args;
    assert forall|i: int| 0 <= i < args.len() implies #[trigger] arg_ok(args[i]) by {
    }
    assert forall|j: int| 0 <= j < args.len() && j != 3 implies (#[trigger] args[j]).id != args[3].id by {
        assert(args[j].id != args[3].id);
    }
    assert forall|j: int| 0 <= j < args.len() && j != 4 implies (#[trigger] args[j]).id != args[4].id by {
        assert(args[j].id != args[4].id);
    }
    let top = grammar::top_command_spec().args;
    assert forall|i: int| 0 <= i < top.len() implies #[trigger] arg_ok(top[i]) by {
    }
    assert forall|k: int| 3 <= k < 6 implies args_ok(#[trigger] grammar::subcommand_spec(k).args) && cmd_wf(grammar::subcommand_spec(k)) by {
        let a = grammar::subcommand_spec(k).args;
        assert forall|i: int| 0 <= i < a.len() implies #[trigger] arg_ok(a[i]) by {
        }
    }
}


// ── The law ───────────────────────────────────────────────────────────

/// The slots of a subcommand once the global argument read before and after
/// its name is settled are still sound, and still hold every default.
proof fn lemma_settled_slots(top: CmdSpec, sc: CmdSpec, ts: Seq<SlotSpec>, ss: Seq<SlotSpec>)
    requires
        slots_ok(top.args, ts),
        slots_ok(sc.args, ss),
        top.args.len() > 0,
        sc.args.len() > 0,
        top.args[0] == sc.args[0],
        forall|j: int| 0 <= j < sc.args.len() && (#[trigger] sc.args[j]).default is Some ==> ss[j].present,
    ensures
        slots_ok(sc.args, ss.update(0, pick_global(ts[0], ss[0]))),
        forall|j: int|
            0 < j < sc.args.len() && (#[trigger] sc.args[j]).default is Some ==> ss.update(0, pick_global(ts[0], ss[0]))[j].present,
{
    let g = pick_global(ts[0], ss[0]);
    assert(slot_ok(top.args[0], ts[0]));
    assert(slot_ok(sc.args[0], ss[0]));
    assert(slot_ok(sc.args[0], g));
    let s2 = ss.update(0, g);
    assert forall|i: int| 0 <= i < sc.args.len() implies #[trigger] slot_ok(sc.args[i], s2[i]) by {
        if i != 0 {
            assert(slot_ok(sc.args[i], ss[i]));
        }
    }
}

/// The flags shared by `serve` and `export` convert from sound slots that hold their defaults.
proof fn lemma_common_converts(sc: CmdSpec, slots: Seq<SlotSpec>)
    requires
        sc.args.len() >= 18,
        args_ok(sc.args),
        slots_ok(sc.args, slots),
        forall|j: int| 0 < j < sc.args.len() && (#[trigger] sc.args[j]).default is Some ==> slots[j].present,
        sc.args[6] == grammar::arg_include_unread_spec(),
        sc.args[7] == grammar::arg_retain_missing_spec(),
        sc.args[9] == grammar::arg_title_spec(),
        sc.args[10] == grammar::arg_language_spec(),
        sc.args[12] == grammar::arg_heatmap_scale_max_spec(),
        sc.args[14] == grammar::arg_min_pages_per_day_spec(),
        sc.args[16] == grammar::arg_include_all_stats_spec(),
        sc.args[17] == grammar::arg_ignore_stable_page_metadata_spec(),
        name_unique(sc.args, 6),
        name_unique(sc.args, 7),
        name_unique(sc.args, 9),
        name_unique(sc.args, 10),
        name_unique(sc.args, 12),
        name_unique(sc.args, 14),
        name_unique(sc.args, 16),
        name_unique(sc.args, 17),
    ensures
        common_from(matched_of(sc.args, slots, sc.args.len() as int)) is Some,
{
    assert(slot_ok(sc.args[6], slots[6]));
    assert(slot_ok(sc.args[7], slots[7]));
    assert(slot_ok(sc.args[9], slots[9]));
    assert(slot_ok(sc.args[10], slots[10]));
    assert(slot_ok(sc.args[12], slots[12]));
    assert(slot_ok(sc.args[14], slots[14]));
    assert(slot_ok(sc.args[16], slots[16]));
    assert(slot_ok(sc.args[17], slots[17]));
    assert(arg_ok(sc.args[6]));
    assert(arg_ok(sc.args[7]));
    assert(arg_ok(sc.args[16]));
    assert(arg_ok(sc.args[17]));
    lemma_get_flag(sc.args, slots, 6);
    lemma_get_flag(sc.args, slots, 7);
    lemma_get_one(sc.args, slots, 9);
    lemma_get_one(sc.args, slots, 10);
    lemma_get_one(sc.args, slots, 12);
    lemma_get_u32_opt(sc.args, slots, 14);
    lemma_get_flag(sc.args, slots, 16);
    lemma_get_flag(sc.args, slots, 17);
}

/// The serve arguments convert from sound slots that hold their defaults.
proof fn lemma_serve_converts(sc: CmdSpec, slots: Seq<SlotSpec>, name: Seq<char>)
    requires
        sc.args.len() >= 21,
        args_ok(sc.args),
        slots_ok(sc.args, slots),
        forall|j: int| 0 < j < sc.args.len() && (#[trigger] sc.args[j]).default is Some ==> slots[j].present,
        sc.args[6] == grammar::arg_include_unread_spec(),
        sc.args[7] == grammar::arg_retain_missing_spec(),
        sc.args[9] == grammar::arg_title_spec(),
        sc.args[10] == grammar::arg_language_spec(),
        sc.args[12] == grammar::arg_heatmap_scale_max_spec(),
        sc.args[14] == grammar::arg_min_pages_per_day_spec(),
        sc.args[16] == grammar::arg_include_all_stats_spec(),
        sc.args[17] == grammar::arg_ignore_stable_page_metadata_spec(),
        sc.args[18] == grammar::arg_port_spec(),
        sc.args[19] == grammar::arg_enable_auth_spec(),
        sc.args[20] == grammar::arg_enable_writeback_spec(),
        name_unique(sc.args, 6),
        name_unique(sc.args, 7),
        name_unique(sc.args, 9),
        name_unique(sc.args, 10),
        name_unique(sc.args, 12),
        name_unique(sc.args, 14),
        name_unique(sc.args, 16),
        name_unique(sc.args, 17),
        name_unique(sc.args, 18),
        name_unique(sc.args, 19),
        name_unique(sc.args, 20),
        name == grammar::top_command_spec().subcommands[0],
    ensures
        command_from(name, matched_of(sc.args, slots, sc.args.len() as int)) is Some,
{
    lemma_common_converts(sc, slots);
    assert(slot_ok(sc.args[18], slots[18]));
    assert(slot_ok(sc.args[19], slots[19]));
    assert(slot_ok(sc.args[20], slots[20]));
    assert(arg_ok(sc.args[19]));
    assert(arg_ok(sc.args[20]));
    lemma_get_u16(sc.args, slots, 18);
    lemma_get_flag(sc.args, slots, 19);
    lemma_get_flag(sc.args, slots, 20);
}

/// The export arguments convert from sound slots that hold their defaults.
proof fn lemma_export_converts(sc: CmdSpec, slots: Seq<SlotSpec>, name: Seq<char>)
    requires
        sc.args.len() >= 21,
        args_ok(sc.args),
        slots_ok(sc.args, slots),
        forall|j: int| 0 < j < sc.args.len() && (#[trigger] sc.args[j]).default is Some ==> slots[j].present,
        sc.args[6] == grammar::arg_include_unread_spec(),
        sc.args[7] == grammar::arg_retain_missing_spec(),
        sc.args[9] == grammar::arg_title_spec(),
        sc.args[10] == grammar::arg_language_spec(),
        sc.args[12] == grammar::arg_heatmap_scale_max_spec(),
        sc.args[14] == grammar::arg_min_pages_per_day_spec(),
        sc.args[16] == grammar::arg_include_all_stats_spec(),
        sc.args[17] == grammar::arg_ignore_stable_page_metadata_spec(),
        sc.args[19] == grammar::arg_include_files_spec(),
        sc.args[20] == grammar::arg_watch_spec(),
        name_unique(sc.args, 6),
        name_unique(sc.args, 7),
        name_unique(sc.args, 9),
        name_unique(sc.args, 10),
        name_unique(sc.args, 12),
        name_unique(sc.args, 14),
        name_unique(sc.args, 16),
        name_unique(sc.args, 17),
        name_unique(sc.args, 19),
        name_unique(sc.args, 20),
        name == grammar::top_command_spec().subcommands[1],
    ensures
        command_from(name, matched_of(sc.args, slots, sc.args.len() as int)) is Some,
{
    lemma_common_converts(sc, slots);
    assert(slot_ok(sc.args[19], slots[19]));
    assert(slot_ok(sc.args[20], slots[20]));
    assert(arg_ok(sc.args[19]));
    assert(arg_ok(sc.args[20]));
    lemma_get_flag(sc.args, slots, 19);
    lemma_get_flag(sc.args, slots, 20);
    assert(name != grammar::top_command_spec().subcommands[0]);
}

/// The set-password arguments convert from sound slots that hold their defaults.
proof fn lemma_set_password_converts(sc: CmdSpec, slots: Seq<SlotSpec>, name: Seq<char>)
    requires
        sc.args.len() >= 5,
        args_ok(sc.args),
        slots_ok(sc.args, slots),
        forall|j: int| 0 < j < sc.args.len() && (#[trigger] sc.args[j]).default is Some ==> slots[j].present,
        sc.args[3] == grammar::arg_random_spec(),
        sc.args[4] == grammar::arg_overwrite_spec(),
        name_unique(sc.args, 3),
        name_unique(sc.args, 4),
        name == grammar::top_command_spec().subcommands[2],
    ensures
        command_from(name, matched_of(sc.args, slots, sc.args.len() as int)) is Some,
{
    assert(slot_ok(sc.args[3], slots[3]));
    assert(slot_ok(sc.args[4], slots[4]));
    assert(arg_ok(sc.args[3]));
    assert(arg_ok(sc.args[4]));
    lemma_get_flag(sc.args, slots, 3);
    lemma_get_flag(sc.args, slots, 4);
    assert(name != grammar::top_command_spec().subcommands[0]);
    assert(name != grammar::top_command_spec().subcommands[1]);
}


/// The matches read for a subcommand, with the global argument settled
/// against the top command's slots `ts`.
pub open spec fn settled_matches(sc: CmdSpec, ts: Seq<SlotSpec>, ss: Seq<SlotSpec>) -> Seq<MatchedSpec> {
    matched_of(sc.args, ss.update(0, pick_global(ts[0], ss[0])), sc.args.len() as int)
}

proof fn lemma_serve_reading(toks: Seq<Seq<char>>, start: int, env: Seq<(Seq<char>, Seq<char>)>, ts: Seq<SlotSpec>)
    requires
        slots_ok(grammar::top_command_spec().args, ts),
    ensures
        parse_command(grammar::serve_command_spec(), toks, start, env) matches Ok((ss, _)) ==> command_from(
            grammar::top_command_spec().subcommands[0],
            settled_matches(grammar::serve_command_spec(), ts, ss),
        ) is Some,
{
    reveal(grammar::serve_command_spec);
    let sc = grammar::serve_command_spec();
    let top = grammar::top_command_spec();
    lemma_serve_grammar();
    lemma_parse_command(sc, toks, start, env);
    if let Ok((ss, _)) = parse_command(sc, toks, start, env) {
        lemma_settled_slots(top, sc, ts, ss);
        lemma_serve_converts(sc, ss.update(0, pick_global(ts[0], ss[0])), top.subcommands[0]);
    }
}

proof fn lemma_export_reading(toks: Seq<Seq<char>>, start: int, env: Seq<(Seq<char>, Seq<char>)>, ts: Seq<SlotSpec>)
    requires
        slots_ok(grammar::top_command_spec().args, ts),
    ensures
        parse_command(grammar::export_command_spec(), toks, start, env) matches Ok((ss, _)) ==> command_from(
            grammar::top_command_spec().subcommands[1],
            settled_matches(grammar::export_command_spec(), ts, ss),
        ) is Some,
{
    reveal(grammar::export_command_spec);
    let sc = grammar::export_command_spec();
    let top = grammar::top_command_spec();
    lemma_export_grammar();
    lemma_parse_command(sc, toks, start, env);
    if let Ok((ss, _)) = parse_command(sc, toks, start, env) {
        lemma_settled_slots(top, sc, ts, ss);
        lemma_export_converts(sc, ss.update(0, pick_global(ts[0], ss[0])), top.subcommands[1]);
    }
}

proof fn lemma_set_password_reading(toks: Seq<Seq<char>>, start: int, env: Seq<(Seq<char>, Seq<char>)>, ts: Seq<SlotSpec>)
    requires
        slots_ok(grammar::top_command_spec().args, ts),
    ensures
        parse_command(grammar::set_password_command_spec(), toks, start, env) matches Ok((ss, _)) ==> command_from(
            grammar::top_command_spec().subcommands[2],
            settled_matches(grammar::set_password_command_spec(), ts, ss),
        ) is Some,
{
    reveal(grammar::set_password_command_spec);
    let sc = grammar::set_password_command_spec();
    let top = grammar::top_command_spec();
    lemma_other_grammars();
    lemma_parse_command(sc, toks, start, env);
    if let Ok((ss, _)) = parse_command(sc, toks, start, env) {
        lemma_settled_slots(top, sc, ts, ss);
        lemma_set_password_converts(sc, ss.update(0, pick_global(ts[0], ss[0])), top.subcommands[2]);
    }
}

proof fn lemma_plain_commands(k: int, a: Seq<MatchedSpec>)
    requires
        3 <= k < 6,
    ensures
        command_from(grammar::top_command_spec().subcommands[k], a) is Some,
{
    let subs = grammar::top_command_spec().subcommands;
    assert(subs[k] != subs[0] && subs[k] != subs[1] && subs[k] != subs[2]);
}


proof fn lemma_find_sub_in_range(subs: Seq<Seq<char>>, t: Seq<char>, from: int)
    requires
        0 <= from,
    ensures
        crate::args::find_sub(subs, t, from) matches Some(k) ==> 0 <= k < subs.len(),
    decreases subs.len() - from,
{
    if from < subs.len() {
        lemma_find_sub_in_range(subs, t, from + 1);
    }
}

proof fn lemma_run_stop(c: CmdSpec, st: PState, toks: Seq<Seq<char>>, i: int)
    requires
        0 <= i,
    ensures
        run(c, st, toks, i) matches Ok((_, Some((k, t)))) ==> 0 <= k < c.subcommands.len() && 0 <= t,
    decreases toks.len() - i,
{
    if i < toks.len() {
        lemma_find_sub_in_range(c.subcommands, toks[i], 0);
        if !st.trailing && st.pending is None && crate::args::find_sub(c.subcommands, toks[i], 0) is Some {
        } else {
            match step(c, st, toks[i], i as usize) {
                Err(_) => {},
                Ok(s2) => lemma_run_stop(c, s2, toks, i + 1),
            }
        }
    }
}

proof fn lemma_stop_in_range(c: CmdSpec, toks: Seq<Seq<char>>, start: int, env: Seq<(Seq<char>, Seq<char>)>)
    requires
        0 <= start,
    ensures
        parse_command(c, toks, start, env) matches Ok((_, Some((k, t)))) ==> 0 <= k < c.subcommands.len() && 0 <= t,
{
    lemma_run_stop(c, initial_state(c), toks, start);
}

proof fn lemma_reading_converts(
    k: int,
    toks: Seq<Seq<char>>,
    start: int,
    env: Seq<(Seq<char>, Seq<char>)>,
    ts: Seq<SlotSpec>,
)
    requires
        0 <= k < 6,
        slots_ok(grammar::top_command_spec().args, ts),
    ensures
        parse_command(grammar::subcommand_spec(k), toks, start, env) matches Ok((ss, _)) ==> command_from(
            grammar::top_command_spec().subcommands[k],
            settled_matches(grammar::subcommand_spec(k), ts, ss),
        ) is Some,
{
    if k == 0 {
        lemma_serve_reading(toks, start, env, ts);
    } else if k == 1 {
        lemma_export_reading(toks, start, env, ts);
    } else if k == 2 {
        lemma_set_password_reading(toks, start, env, ts);
    } else {
        assert forall|a: Seq<MatchedSpec>| #[trigger] command_from(grammar::top_command_spec().subcommands[k], a) is Some by {
            lemma_plain_commands(k, a);
        }
    }
}

/// Every command line that is read without error converts into a command:
/// the conversion refuses only matches that no reading produces.
#[verifier::spinoff_prover]
pub proof fn read_command_lines_convert(toks: Seq<Seq<char>>, env: Seq<(Seq<char>, Seq<char>)>)
    ensures
        get_matches_spec(toks, env) matches Ok(m) ==> cli_from(m) is Some,
{
    let top = grammar::top_command_spec();
    lemma_top_grammar();
    lemma_parse_command(top, toks, first_arg_index(toks), env);
    lemma_stop_in_range(top, toks, first_arg_index(toks), env);
    match parse_command(top, toks, first_arg_index(toks), env) {
        Err(_) => {
            assert(get_matches_spec(toks, env) is Err);
        },
        Ok((ts, stop)) => match stop {
            None => {
                assert(get_matches_spec(toks, env) is Err);
            },
            Some((k, t)) => if k < 6 {
                let sc = grammar::subcommand_spec(k);
                lemma_reading_converts(k, toks, t + 1, env, ts);
                match parse_command(sc, toks, t + 1, env) {
                    Err(_) => {
                        assert(get_matches_spec(toks, env) is Err);
                    },
                    Ok((ss, _)) => {
                        let a = settled_matches(sc, ts, ss);
                        let g = pick_global(ts[0], ss[0]);
                        let m = crate::cli::MatchesSpec {
                            args: matched_of(top.args, ts.update(0, g), top.args.len() as int),
                            sub: Some((top.subcommands[k], a)),
                        };
                        assert(get_matches_spec(toks, env) == Ok::<crate::cli::MatchesSpec, crate::args::CliError>(m));
                        assert(command_from(top.subcommands[k], a) is Some);
                        assert(cli_from(m) is Some);
                    },
                }
            },
        },
    }
}


/// A value given on the command line is never replaced: the environment and
/// the defaults only fill the arguments that the command line left out.
pub proof fn command_line_wins_over_environment(
    args: Seq<ArgSpec>,
    slots: Seq<SlotSpec>,
    env: Seq<(Seq<char>, Seq<char>)>,
)
    requires
        slots.len() == args.len(),
    ensures
        fill_slots(args, slots, env, args.len() as int) matches Ok(filled) ==> forall|j: int|
            0 <= j < slots.len() && (#[trigger] slots[j]).present ==> filled[j] == slots[j],
{
    lemma_fill_keeps(args, slots, env, args.len() as int);
}

proof fn lemma_fill_keeps(args: Seq<ArgSpec>, slots: Seq<SlotSpec>, env: Seq<(Seq<char>, Seq<char>)>, k: int)
    requires
        0 <= k <= slots.len(),
    ensures
        fill_slots(args, slots, env, k) matches Ok(filled) ==> filled.len() == slots.len() && forall|j: int|
            0 <= j < slots.len() && (#[trigger] slots[j]).present ==> filled[j] == slots[j],
    decreases k,
{
    if k > 0 {
        lemma_fill_keeps(args, slots, env, k - 1);
    }
}


/// `--name=value` reads as `--name` followed by `value`: the value of a long
/// option is the text after the first `=`. (A value that itself looks like an
/// option, or `--`, can only be attached this way.)
pub proof fn attached_value_reads_as_next_argument(
    c: CmdSpec,
    st: PState,
    name: Seq<char>,
    v: Seq<char>,
    ti: usize,
)
    requires
        st.pending is None,
        !st.trailing,
        name.len() > 0,
        !name.contains('='),
        find_long(c.args, name, 0) matches Some(a) && (c.args[a].kind == ArgKind::Single || c.args[a].kind
            == ArgKind::Append),
        !(v.len() >= 2 && v[0] == '-'),
        ti < usize::MAX,
    ensures
        step(c, st, seq!['-', '-'] + name + seq!['='] + v, ti) == match step(c, st, seq!['-', '-'] + name, ti) {
            Ok(s1) => step(c, s1, v, (ti + 1) as usize),
            Err(e) => Err(e),
        },
{
    let joined = seq!['-', '-'] + name + seq!['='] + v;
    let bare = seq!['-', '-'] + name;
    let body = name + seq!['='] + v;
    assert(joined.skip(2) =~= body);
    assert(bare.skip(2) =~= name);
    assert(joined[0] == '-' && joined[1] == '-');
    assert(bare[0] == '-' && bare[1] == '-');
    assert(joined.len() > 2);
    assert(bare.len() > 2);
    assert(joined != crate::args::escape_text());
    assert(bare != crate::args::escape_text());
    assert forall|j: int| 0 <= j < name.len() implies body[j] != '=' by {
        assert(body[j] == name[j]);
        if name[j] == '=' {
            assert(name.contains('='));
        }
    }
    assert(body[name.len() as int] == '=');
    crate::args::lemma_first_index_at(body, '=', name.len() as int);
    assert forall|j: int| 0 <= j < name.len() implies name[j] != '=' by {
        if name[j] == '=' {
            assert(name.contains('='));
        }
    }
    crate::args::lemma_first_index_none(name, '=');
    assert(body.take(name.len() as int) =~= name);
    assert(body.skip(name.len() as int + 1) =~= v);
    let a = find_long(c.args, name, 0)->Some_0;
    let s1 = PState { pending: Some(a), ..st };
    assert(PState { pending: None, ..s1 } == st);
    if v == crate::args::escape_text() {
        assert(v[0] == '-');
    }
}


#[verifier::spinoff_prover]
proof fn lemma_short_bare(c: CmdSpec, st: PState, x: char, ti: usize)
    requires
        st.pending is None,
        !st.trailing,
        x != '-',
        find_short(c.args, x, 0) matches Some(a) && (c.args[a].kind == ArgKind::Single || c.args[a].kind
            == ArgKind::Append),
    ensures
        step(c, st, seq!['-', x], ti) == Ok::<PState, crate::args::CliError>(
            PState { pending: Some(find_short(c.args, x, 0)->Some_0), ..st },
        ),
{
    let bare = seq!['-', x];
    assert(bare.drop_first() =~= seq![x]);
    assert(seq![x].drop_first() =~= Seq::<char>::empty());
    assert(bare != crate::args::escape_text());
    let a = find_short(c.args, x, 0)->Some_0;
    assert(short_cluster(c, st, seq![x], ti) == Ok::<PState, crate::args::CliError>(PState { pending: Some(a), ..st }));
}

#[verifier::spinoff_prover]
#[verifier::rlimit(30)]
proof fn lemma_short_attached(c: CmdSpec, st: PState, x: char, w: Seq<char>, ti: usize)
    requires
        st.pending is None,
        !st.trailing,
        x != '-',
        find_short(c.args, x, 0) matches Some(a) && (c.args[a].kind == ArgKind::Single || c.args[a].kind
            == ArgKind::Append),
        w.len() > 0,
    ensures
        step(c, st, seq!['-', x] + w, ti) == if w[0] == '=' {
            record_value(c.args, st, find_short(c.args, x, 0)->Some_0, w.drop_first())
        } else {
            record_value(c.args, st, find_short(c.args, x, 0)->Some_0, w)
        },
{
    let t = seq!['-', x] + w;
    assert(t.drop_first() =~= seq![x] + w);
    assert((seq![x] + w)[0] == x);
    assert((seq![x] + w).drop_first() =~= w);
    assert(t[0] == '-' && t[1] == x);
    assert(t != crate::args::escape_text());
    let cs = seq![x] + w;
    assert(step(c, st, t, ti) == short_cluster(c, st, cs, ti));
}

/// `-xvalue` and `-x=value` read as `-x` followed by `value`, for a short
/// option that takes a value.
pub proof fn attached_short_value_reads_as_next_argument(
    c: CmdSpec,
    st: PState,
    x: char,
    v: Seq<char>,
    ti: usize,
)
    requires
        st.pending is None,
        !st.trailing,
        x != '-',
        find_short(c.args, x, 0) matches Some(a) && (c.args[a].kind == ArgKind::Single || c.args[a].kind
            == ArgKind::Append),
        v.len() > 0,
        v[0] != '=',
        !(v.len() >= 2 && v[0] == '-'),
        ti < usize::MAX,
    ensures
        step(c, st, seq!['-', x] + v, ti) == match step(c, st, seq!['-', x], ti) {
            Ok(s1) => step(c, s1, v, (ti + 1) as usize),
            Err(e) => Err(e),
        },
        step(c, st, seq!['-', x] + (seq!['='] + v), ti) == match step(c, st, seq!['-', x], ti) {
            Ok(s1) => step(c, s1, v, (ti + 1) as usize),
            Err(e) => Err(e),
        },
{
    let a = find_short(c.args, x, 0)->Some_0;
    lemma_short_bare(c, st, x, ti);
    lemma_short_attached(c, st, x, v, ti);
    lemma_short_attached(c, st, x, seq!['='] + v, ti);
    assert((seq!['='] + v)[0] == '=');
    assert((seq!['='] + v).drop_first() =~= v);
    let s1 = PState { pending: Some(a), ..st };
    assert(PState { pending: None, ..s1 } == st);
    if v == crate::args::escape_text() {
        assert(v[0] == '-');
    }
    assert(step(c, s1, v, (ti + 1) as usize) == record_value(c.args, st, a, v));
}


/// A repeatable option collects the values of each reading after those of
/// the readings before it; an option that takes one value refuses a second.
pub proof fn repeated_values_accumulate_in_order(
    args: Seq<ArgSpec>,
    st: PState,
    a: int,
    v1: Seq<char>,
    v2: Seq<char>,
)
    requires
        0 <= a < args.len(),
        a < st.slots.len(),
    ensures
        args[a].kind == ArgKind::Append ==> (record_value(args, st, a, v1) matches Ok(s1) ==> (record_value(args, s1, a, v2)
            matches Ok(s2) ==> s2.slots[a].values == st.slots[a].values + split_value(v1, args[a].delimiter) + split_value(
            v2,
            args[a].delimiter,
        ))),
        args[a].kind == ArgKind::Single ==> (record_value(args, st, a, v1) matches Ok(s1) ==> record_value(args, s1, a, v2)
            is Err),
{
}

} // verus!
