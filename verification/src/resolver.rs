use vstd::prelude::*;

use crate::ast::{Defn, DefnKind, DefnKindV, DefnV, ModuleId, ProgV, Program, defs_view};
use crate::cache::{ProgramCache, cache_entries, cache_get, cache_insert, cache_new};
use crate::mangling::{
    copy_defn, copy_expr, lemma_defs_view_concat, lemma_defs_view_push, mangle, spec_mangle_defs,
};

verus! {

/// Why a resolution failed.
#[derive(Clone, Copy, PartialEq, Eq, Structural, Debug)]
pub enum ResolveErr {
    /// The table holds no module under the requested id. Carries that id.
    Unavailable(ModuleId),
    /// The requested module is already being resolved further up this same
    /// resolution: the module graph has a cycle through it. Carries that id.
    Cycle(ModuleId),
}

/// The loaded-and-parsed modules handed to the resolver. This is the
/// boundary to the loader and parser collaborators, which own I/O and
/// syntax: they fill the table; the resolver only reads it.
pub struct ModuleTable {
    entries: Vec<(ModuleId, Program)>,
}

impl View for ModuleTable {
    type V = Seq<(u64, ProgV)>;

    closed spec fn view(&self) -> Seq<(u64, ProgV)> {
        self.entries@.map_values(|e: (ModuleId, Program)| (e.0.tag, e.1@))
    }
}

/// The first entry under the tag, if there is one.
pub open spec fn table_find(t: Seq<(u64, ProgV)>, tag: u64) -> Option<ProgV>
    decreases t.len(),
{
    if t.len() == 0 {
        Option::None
    } else if t[0].0 == tag {
        Option::Some(t[0].1)
    } else {
        table_find(t.drop_first(), tag)
    }
}

pub open spec fn table_tags(t: Seq<(u64, ProgV)>) -> Set<u64> {
    t.map_values(|e: (u64, ProgV)| e.0).to_set()
}

/// Termination measure of resolution: how many known modules are not yet
/// on the in-progress stack.
pub open spec fn remaining(t: Seq<(u64, ProgV)>, stack: Set<u64>) -> nat {
    table_tags(t).difference(stack).len()
}

proof fn lemma_find_in_tags(t: Seq<(u64, ProgV)>, tag: u64)
    requires
        table_find(t, tag) is Some,
    ensures
        table_tags(t).contains(tag),
    decreases t.len(),
{
    let tags = t.map_values(|e: (u64, ProgV)| e.0);
    assert(tags.len() == t.len());
    if t.len() == 0 {
    } else if t[0].0 == tag {
        assert(tags[0] == tag);
        assert(tags.contains(tag));
    } else {
        lemma_find_in_tags(t.drop_first(), tag);
        let rest = t.drop_first().map_values(|e: (u64, ProgV)| e.0);
        assert(rest.len() == t.len() - 1);
        let i = choose|i: int| 0 <= i < rest.len() && rest[i] == tag;
        assert(rest[i] == t.drop_first()[i].0);
        assert(t.drop_first()[i] == t[i + 1]);
        assert(tags[i + 1] == tag);
        assert(tags.contains(tag));
    }
}

proof fn lemma_step_decreases(t: Seq<(u64, ProgV)>, tag: u64, stack: Set<u64>)
    requires
        table_find(t, tag) is Some,
        !stack.contains(tag),
    ensures
        remaining(t, stack.insert(tag)) < remaining(t, stack),
{
    lemma_find_in_tags(t, tag);
    vstd::seq_lib::seq_to_set_is_finite::<u64>(t.map_values(|e: (u64, ProgV)| e.0));
    table_tags(t).lemma_set_insert_diff_decreases(stack, tag);
}

/// What resolving module `id` returns, with `stack` the set of modules
/// whose resolution is in progress further up the same resolution. A module
/// already on the stack is a cycle; a module the table lacks is
/// unavailable; otherwise every `Require` in its definition list is
/// replaced, in place, by the required module's resolved and renamed
/// definitions, and the module's own body is kept.
pub open spec fn resolve_spec(t: Seq<(u64, ProgV)>, id: ModuleId, stack: Set<u64>) -> Result<
    ProgV,
    ResolveErr,
>
    decreases remaining(t, stack), 0nat,
    via resolve_spec_dec
{
    if stack.contains(id.tag) {
        Result::Err(ResolveErr::Cycle(id))
    } else {
        match table_find(t, id.tag) {
            Option::None => Result::Err(ResolveErr::Unavailable(id)),
            Option::Some(p) => match splice_spec(t, stack.insert(id.tag), p.defs) {
                Result::Ok(ds) => Result::Ok(ProgV { defs: ds, body: p.body }),
                Result::Err(e) => Result::Err(e),
            },
        }
    }
}

#[via_fn]
proof fn resolve_spec_dec(t: Seq<(u64, ProgV)>, id: ModuleId, stack: Set<u64>) {
    if !stack.contains(id.tag) && table_find(t, id.tag) is Some {
        lemma_step_decreases(t, id.tag, stack);
    }
}

/// What one definition contributes to the spliced sequence: a `Require` is
/// replaced by the required module's resolved, renamed definitions; every
/// other definition, the module's own `Provide` markers included, is kept.
pub open spec fn splice_one(t: Seq<(u64, ProgV)>, stack2: Set<u64>, d: DefnV) -> Result<
    Seq<DefnV>,
    ResolveErr,
>
    decreases remaining(t, stack2), 1nat,
{
    match d.kind {
        DefnKindV::Require(other) => match resolve_spec(t, other, stack2) {
            Result::Ok(p) => Result::Ok(spec_mangle_defs(p.defs, other)),
            Result::Err(e) => Result::Err(e),
        },
        _ => Result::Ok(seq![d]),
    }
}

/// Splicing a whole definition list: the contributions are concatenated in
/// the original order, and the first failure is the result.
pub open spec fn splice_spec(t: Seq<(u64, ProgV)>, stack2: Set<u64>, defs: Seq<DefnV>) -> Result<
    Seq<DefnV>,
    ResolveErr,
>
    decreases remaining(t, stack2), 2 + defs.len(),
{
    if defs.len() == 0 {
        Result::Ok(Seq::empty())
    } else {
        match splice_spec(t, stack2, defs.drop_last()) {
            Result::Err(e) => Result::Err(e),
            Result::Ok(fs) => match splice_one(t, stack2, defs.last()) {
                Result::Err(e) => Result::Err(e),
                Result::Ok(tail) => Result::Ok(fs + tail),
            },
        }
    }
}

proof fn lemma_splice_err(
    t: Seq<(u64, ProgV)>,
    stack2: Set<u64>,
    defs: Seq<DefnV>,
    i: int,
    e: ResolveErr,
)
    requires
        0 <= i < defs.len(),
        splice_spec(t, stack2, defs.take(i)) is Ok,
        splice_one(t, stack2, defs[i]) == Result::<Seq<DefnV>, ResolveErr>::Err(e),
    ensures
        splice_spec(t, stack2, defs) == Result::<Seq<DefnV>, ResolveErr>::Err(e),
    decreases defs.len(),
{
    if i == defs.len() - 1 {
        assert(defs.drop_last() =~= defs.take(i));
        assert(defs.last() == defs[i]);
    } else {
        assert(defs.drop_last().take(i) =~= defs.take(i));
        assert(defs.drop_last()[i] == defs[i]);
        lemma_splice_err(t, stack2, defs.drop_last(), i, e);
    }
}

proof fn lemma_push_to_set(s: Seq<u64>, x: u64)
    ensures
        s.push(x).to_set() =~= s.to_set().insert(x),
{
    assert forall|y: u64| s.push(x).to_set().contains(y) implies s.to_set().insert(x).contains(
        y,
    ) by {
        let i = choose|i: int| 0 <= i < s.push(x).len() && s.push(x)[i] == y;
        if i < s.len() {
            assert(s[i] == y);
            assert(s.contains(y));
        }
    }
    assert forall|y: u64| s.to_set().insert(x).contains(y) implies s.push(x).to_set().contains(
        y,
    ) by {
        if s.to_set().contains(y) {
            let i = choose|i: int| 0 <= i < s.len() && s[i] == y;
            assert(s.push(x)[i] == y);
            assert(s.push(x).contains(y));
        } else {
            assert(s.push(x)[s.len() as int] == y);
            assert(s.push(x).contains(y));
        }
    }
}

fn stack_contains(stack: &Vec<u64>, tag: u64) -> (r: bool)
    ensures
        r == stack@.to_set().contains(tag),
{
    let mut i: usize = 0;
    while i < stack.len()
        invariant
            0 <= i <= stack.len(),
            forall|j: int| 0 <= j < i ==> stack@[j] != tag,
        decreases stack.len() - i,
    {
        if stack[i] == tag {
            assert(stack@.contains(tag));
            return true;
        }
        i += 1;
    }
    assert(!stack@.contains(tag));
    false
}

impl ModuleTable {
    pub fn new() -> (r: ModuleTable)
        ensures
            r@ == Seq::<(u64, ProgV)>::empty(),
    {
        let r = ModuleTable { entries: Vec::new() };
        proof {
            assert(r@ =~= Seq::<(u64, ProgV)>::empty());
        }
        r
    }

    /// Registers a loaded-and-parsed module under its id.
    pub fn add(&mut self, id: ModuleId, prog: Program)
        ensures
            final(self)@ == old(self)@.push((id.tag, prog@)),
    {
        let ghost pre = self.entries@;
        let ghost pv = prog@;
        self.entries.push((id, prog));
        proof {
            assert(self@.len() == self.entries@.len());
            assert(self@ =~= old(self)@.push((id.tag, pv)));
        }
    }

    /// The first registered program under the id, if there is one.
    pub fn find(&self, id: ModuleId) -> (r: Option<&Program>)
        ensures
            (match r {
                Option::Some(p) => table_find(self@, id.tag) == Option::Some(p@),
                Option::None => table_find(self@, id.tag) is None,
            }),
    {
        proof {
            assert(self@.skip(0) =~= self@);
        }
        let mut i: usize = 0;
        while i < self.entries.len()
            invariant
                0 <= i <= self.entries.len(),
                table_find(self@, id.tag) == table_find(self@.skip(i as int), id.tag),
            decreases self.entries.len() - i,
        {
            proof {
                assert(self@.len() == self.entries@.len());
                let ghost ent = self.entries@[i as int];
                assert(self@[i as int] == (ent.0.tag, ent.1@));
                assert(self@.skip(i as int)[0] == self@[i as int]);
            }
            if self.entries[i].0.tag == id.tag {
                return Option::Some(&self.entries[i].1);
            }
            proof {
                assert(self@.skip(i as int).drop_first() =~= self@.skip(i + 1));
            }
            i += 1;
        }
        proof {
            assert(self@.len() == self.entries@.len());
            assert(self@.skip(self.entries@.len() as int) =~= Seq::<(u64, ProgV)>::empty());
        }
        Option::None
    }
}

/// Recursive resolution against the table alone. `stack` holds the tags of
/// the modules whose resolution is in progress further up the call: a
/// request for one of them is a cycle and fails fast instead of recursing
/// forever.
fn demod_rec(table: &ModuleTable, loads: &mut u64, id: ModuleId, stack: &Vec<u64>) -> (r: Result<
    Program,
    ResolveErr,
>)
    ensures
        (match r {
            Result::Ok(p) => resolve_spec(table@, id, stack@.to_set()) == Result::<
                ProgV,
                ResolveErr,
            >::Ok(p@),
            Result::Err(e) => resolve_spec(table@, id, stack@.to_set()) == Result::<
                ProgV,
                ResolveErr,
            >::Err(e),
        }),
    decreases remaining(table@, stack@.to_set()),
{
    if stack_contains(stack, id.tag) {
        return Result::Err(ResolveErr::Cycle(id));
    }
    if *loads < u64::MAX {
        *loads = *loads + 1;
    }
    let found = table.find(id);
    match found {
        Option::None => Result::Err(ResolveErr::Unavailable(id)),
        Option::Some(p) => {
            let ghost stack_set = stack@.to_set();
            let ghost stack_set2 = stack_set.insert(id.tag);
            let mut stack2: Vec<u64> = Vec::new();
            let mut si: usize = 0;
            while si < stack.len()
                invariant
                    0 <= si <= stack.len(),
                    stack2@ == stack@.take(si as int),
                decreases stack.len() - si,
            {
                stack2.push(stack[si]);
                assert(stack2@ =~= stack@.take(si + 1));
                si += 1;
            }
            proof {
                assert(stack@.take(stack@.len() as int) =~= stack@);
            }
            stack2.push(id.tag);
            proof {
                lemma_push_to_set(stack@, id.tag);
                assert(stack2@ == stack@.push(id.tag));
                assert(stack2@.to_set() == stack_set2);
            }
            let ghost dv = defs_view(p.defs@);
            let mut out: Vec<Defn> = Vec::new();
            let mut i: usize = 0;
            proof {
                assert(dv.len() == p.defs@.len());
                assert(defs_view(out@) =~= Seq::<DefnV>::empty());
                assert(dv.take(0) =~= Seq::<DefnV>::empty());
            }
            while i < p.defs.len()
                invariant
                    0 <= i <= p.defs.len(),
                    dv == defs_view(p.defs@),
                    dv.len() == p.defs@.len(),
                    splice_spec(table@, stack_set2, dv.take(i as int)) == Result::<
                        Seq<DefnV>,
                        ResolveErr,
                    >::Ok(defs_view(out@)),
                    stack2@.to_set() == stack_set2,
                    stack_set2 == stack@.to_set().insert(id.tag),
                    stack_set == stack@.to_set(),
                    !stack_set.contains(id.tag),
                    table_find(table@, id.tag) == Option::Some(p@),
                decreases p.defs.len() - i,
            {
                let d = &p.defs[i];
                proof {
                    assert(p.defs@[i as int]@ == dv[i as int]);
                }
                match &d.kind {
                    DefnKind::Require(other) => {
                        proof {
                            lemma_step_decreases(table@, id.tag, stack_set);
                        }
                        let sub = demod_rec(table, loads, *other, &stack2);
                        match sub {
                            Result::Ok(subp) => {
                                let mut mangled = mangle(&subp.defs, *other);
                                let ghost mg = mangled@;
                                let ghost pre_out = out@;
                                proof {
                                    assert(dv[i as int].kind == DefnKindV::Require(*other));
                                    assert(resolve_spec(table@, *other, stack_set2) == Result::<
                                        ProgV,
                                        ResolveErr,
                                    >::Ok(subp@));
                                    assert(subp@.defs == defs_view(subp.defs@));
                                    assert(splice_one(table@, stack_set2, dv[i as int]) == Result::<
                                        Seq<DefnV>,
                                        ResolveErr,
                                    >::Ok(spec_mangle_defs(subp@.defs, *other)));
                                }
                                out.append(&mut mangled);
                                proof {
                                    lemma_defs_view_concat(pre_out, mg);
                                    assert(dv.take(i + 1).len() == i + 1);
                                    assert(dv.take(i + 1).drop_last() =~= dv.take(i as int));
                                    assert(dv.take(i + 1).last() == dv[i as int]);
                                    assert(splice_spec(table@, stack_set2, dv.take(i + 1))
                                        == Result::<Seq<DefnV>, ResolveErr>::Ok(defs_view(out@)));
                                }
                            },
                            Result::Err(e) => {
                                proof {
                                    assert(dv[i as int].kind == DefnKindV::Require(*other));
                                    assert(splice_one(table@, stack_set2, dv[i as int]) == Result::<
                                        Seq<DefnV>,
                                        ResolveErr,
                                    >::Err(e));
                                    lemma_splice_err(table@, stack_set2, dv, i as int, e);
                                    assert(p@.defs == dv);
                                }
                                return Result::Err(e);
                            },
                        }
                    },
                    _ => {
                        let c = copy_defn(d);
                        let ghost cx = c;
                        let ghost pre_out = out@;
                        out.push(c);
                        proof {
                            lemma_defs_view_push(pre_out, cx);
                            assert(!(dv[i as int].kind is Require));
                            assert(splice_one(table@, stack_set2, dv[i as int]) == Result::<
                                Seq<DefnV>,
                                ResolveErr,
                            >::Ok(seq![dv[i as int]]));
                            assert(defs_view(pre_out).push(cx@) =~= defs_view(pre_out) + seq![
                                dv[i as int],
                            ]);
                            assert(dv.take(i + 1).len() == i + 1);
                            assert(dv.take(i + 1).drop_last() =~= dv.take(i as int));
                            assert(dv.take(i + 1).last() == dv[i as int]);
                            assert(splice_spec(table@, stack_set2, dv.take(i + 1)) == Result::<
                                Seq<DefnV>,
                                ResolveErr,
                            >::Ok(defs_view(out@)));
                        }
                    },
                }
                i += 1;
            }
            let ghost ov = defs_view(out@);
            proof {
                assert(dv.take(dv.len() as int) =~= dv);
                assert(splice_spec(table@, stack_set2, dv) == Result::<Seq<DefnV>, ResolveErr>::Ok(
                    ov,
                ));
                assert(p@.defs == dv);
            }
            let body2 = copy_expr(&p.body);
            let result = Program { defs: out, body: body2 };
            proof {
                assert(result@.defs == ov);
                assert(result@.body == p@.body);
                assert(resolve_spec(table@, id, stack_set) == Result::<ProgV, ResolveErr>::Ok(
                    result@,
                ));
            }
            Result::Ok(result)
        },
    }
}

/// The resolver with its memoizing cache. The cache maps a module tag to
/// the flattened program computed for it; memoization is best-effort, at
/// the root of each request: a recursive resolution below a miss recomputes
/// its dependencies rather than consulting the cache.
pub struct Demodularizer {
    table: ModuleTable,
    cache: ProgramCache,
    loads: u64,
}

impl Demodularizer {
    /// Every cached entry is exactly what resolving its module against the
    /// table returns, so a hit can stand in for a fresh resolution.
    pub closed spec fn wf(self) -> bool {
        forall|k: u64| #[trigger]
            cache_entries(self.cache).dom().contains(k) ==> resolve_spec(
                self.table@,
                ModuleId { tag: k },
                Set::empty(),
            ) == Result::<ProgV, ResolveErr>::Ok(cache_entries(self.cache)[k])
    }

    pub closed spec fn table_view(self) -> Seq<(u64, ProgV)> {
        self.table@
    }

    pub closed spec fn cached(self, tag: u64) -> bool {
        cache_entries(self.cache).dom().contains(tag)
    }

    pub closed spec fn loader_calls(self) -> u64 {
        self.loads
    }

    /// A resolver over the given module table, with an empty cache.
    pub fn new(table: ModuleTable) -> (r: Demodularizer)
        ensures
            r.wf(),
            r.table_view() == table@,
            forall|k: u64| !r.cached(k),
            r.loader_calls() == 0,
    {
        Demodularizer { table, cache: cache_new(), loads: 0 }
    }

    /// How many times the resolver has consulted the module table; a cache
    /// hit consults it not at all.
    pub fn load_count(&self) -> (n: u64)
        ensures
            n == self.loader_calls(),
    {
        self.loads
    }

    /// Returns the flattened, `Require`-free form of the module: exactly
    /// what `resolve_spec` says, whether the answer comes from the cache or
    /// from a fresh resolution. On a hit the resolver is left untouched; on
    /// a successful miss the result is cached for the next request.
    pub fn demod(&mut self, id: ModuleId) -> (r: Result<Program, ResolveErr>)
        requires
            old(self).wf(),
        ensures
            final(self).wf(),
            final(self).table_view() == old(self).table_view(),
            (match r {
                Result::Ok(p) => resolve_spec(old(self).table_view(), id, Set::empty())
                    == Result::<ProgV, ResolveErr>::Ok(p@),
                Result::Err(e) => resolve_spec(old(self).table_view(), id, Set::empty())
                    == Result::<ProgV, ResolveErr>::Err(e),
            }),
            old(self).cached(id.tag) ==> *final(self) == *old(self),
            r is Ok ==> final(self).cached(id.tag),
    {
        match cache_get(&self.cache, id.tag) {
            Option::Some(p) => {
                proof {
                    assert(ModuleId { tag: id.tag } == id);
                }
                Result::Ok(p)
            },
            Option::None => {
                let stack: Vec<u64> = Vec::new();
                proof {
                    assert(stack@.to_set() =~= Set::<u64>::empty());
                }
                let r = demod_rec(&self.table, &mut self.loads, id, &stack);
                match r {
                    Result::Ok(p) => {
                        cache_insert(&mut self.cache, id.tag, &p);
                        proof {
                            assert forall|k: u64| #[trigger]
                                cache_entries(self.cache).dom().contains(k) implies resolve_spec(
                                self.table@,
                                ModuleId { tag: k },
                                Set::empty(),
                            ) == Result::<ProgV, ResolveErr>::Ok(
                                cache_entries(self.cache)[k],
                            ) by {
                                if k == id.tag {
                                    assert(ModuleId { tag: k } == id);
                                    assert(cache_entries(self.cache)[k] == p@);
                                }
                            }
                        }
                        Result::Ok(p)
                    },
                    Result::Err(e) => Result::Err(e),
                }
            },
        }
    }
}

} // verus!
