use vstd::prelude::*;
use crate::manifest::{is_jar, is_jar_name, jar_names, jar_only, views};
use crate::text::str_eq;

verus! {

broadcast use vstd::seq_lib::group_seq_properties;

/// The installed mods that reconciliation deletes: the `.jar` files that
/// the allow list does not name, in listing order.
pub open spec fn removed_mods(installed: Seq<Seq<char>>, allow: Seq<Seq<char>>) -> Seq<Seq<char>> {
    installed.filter(|n: Seq<char>| is_jar(n) && !allow.contains(n))
}

/// The staged mods that reconciliation copies in: every staged `.jar` file.
pub open spec fn added_mods(staged: Seq<Seq<char>>) -> Seq<Seq<char>> {
    jar_only(staged)
}

/// The installed names that survive the deletions.
pub open spec fn kept_mods(installed: Seq<Seq<char>>, removed: Seq<Seq<char>>) -> Seq<Seq<char>> {
    installed.filter(|n: Seq<char>| !removed.contains(n))
}

/// The mods directory after the deletions and then the copies: the kept
/// names in their order, then each added name not already there.
pub open spec fn mods_after(
    installed: Seq<Seq<char>>,
    removed: Seq<Seq<char>>,
    added: Seq<Seq<char>>,
) -> Seq<Seq<char>> {
    let kept = kept_mods(installed, removed);
    kept + added.filter(|n: Seq<char>| !kept.contains(n))
}

/// What a reconciliation of the mods directory deletes and copies in.
pub struct ReconcilePlan {
    pub removed: Vec<String>,
    pub added: Vec<String>,
}

/// Whether `list` holds `name`.
pub fn contains_name(list: &Vec<String>, name: &str) -> (r: bool)
    ensures
        r == views(list@).contains(name@),
{
    let mut j: usize = 0;
    while j < list.len()
        invariant
            j <= list@.len(),
            forall|k: int| 0 <= k < j ==> list@[k]@ != name@,
        decreases list@.len() - j,
    {
        if str_eq(list[j].as_str(), name) {
            assert(views(list@)[j as int] == name@);
            return true;
        }
        j = j + 1;
    }
    assert(forall|k: int| 0 <= k < list@.len() ==> views(list@)[k] != name@);
    false
}

/// Plans a reconciliation: the installed `.jar` files missing from the
/// allow list are to be deleted, then every staged `.jar` file copied in.
pub fn plan_reconcile(installed: &Vec<String>, staged: &Vec<String>, allow: &Vec<String>) -> (r:
    ReconcilePlan)
    ensures
        views(r.removed@) == removed_mods(views(installed@), views(allow@)),
        views(r.added@) == added_mods(views(staged@)),
{
    let ghost inst = views(installed@);
    let ghost allowed = views(allow@);
    let ghost drop_pred = |n: Seq<char>| is_jar(n) && !allowed.contains(n);
    let mut removed: Vec<String> = Vec::new();
    let mut i: usize = 0;
    while i < installed.len()
        invariant
            i <= installed@.len(),
            inst == views(installed@),
            allowed == views(allow@),
            drop_pred == (|n: Seq<char>| is_jar(n) && !allowed.contains(n)),
            views(removed@) == inst.take(i as int).filter(drop_pred),
        decreases installed@.len() - i,
    {
        let name = installed[i].as_str();
        assert(inst.take(i + 1) =~= inst.take(i as int).push(inst[i as int]));
        proof {
            inst.take(i as int).lemma_filter_push(inst[i as int], drop_pred);
        }
        if is_jar_name(name) && !contains_name(allow, name) {
            removed.push(installed[i].clone());
        }
        assert(views(removed@) =~= inst.take(i + 1).filter(drop_pred));
        i = i + 1;
    }
    assert(inst.take(installed@.len() as int) =~= inst);
    let added = jar_names(staged);
    ReconcilePlan { removed, added }
}

impl ReconcilePlan {
    /// The names in the mods directory once this plan is carried out on a
    /// directory that held `installed`.
    pub fn resulting_mods(&self, installed: &Vec<String>) -> (r: Vec<String>)
        ensures
            views(r@) == mods_after(views(installed@), views(self.removed@), views(self.added@)),
    {
        let ghost inst = views(installed@);
        let ghost rem = views(self.removed@);
        let ghost keep_pred = |n: Seq<char>| !rem.contains(n);
        let mut out: Vec<String> = Vec::new();
        let mut i: usize = 0;
        while i < installed.len()
            invariant
                i <= installed@.len(),
                inst == views(installed@),
                rem == views(self.removed@),
                keep_pred == (|n: Seq<char>| !rem.contains(n)),
                views(out@) == inst.take(i as int).filter(keep_pred),
            decreases installed@.len() - i,
        {
            assert(inst.take(i + 1) =~= inst.take(i as int).push(inst[i as int]));
            proof {
                inst.take(i as int).lemma_filter_push(inst[i as int], keep_pred);
            }
            if !contains_name(&self.removed, installed[i].as_str()) {
                out.push(installed[i].clone());
            }
            assert(views(out@) =~= inst.take(i + 1).filter(keep_pred));
            i = i + 1;
        }
        assert(inst.take(installed@.len() as int) =~= inst);
        let ghost kept = views(out@);
        let ghost add = views(self.added@);
        let ghost new_pred = |n: Seq<char>| !kept.contains(n);
        let kept_list = out.clone();
        let mut k: usize = 0;
        while k < self.added.len()
            invariant
                k <= self.added@.len(),
                add == views(self.added@),
                kept == views(kept_list@),
                new_pred == (|n: Seq<char>| !kept.contains(n)),
                views(out@) == kept + add.take(k as int).filter(new_pred),
            decreases self.added@.len() - k,
        {
            assert(add.take(k + 1) =~= add.take(k as int).push(add[k as int]));
            proof {
                add.take(k as int).lemma_filter_push(add[k as int], new_pred);
            }
            let ghost prev = views(out@);
            let ghost f = add.take(k as int).filter(new_pred);
            if !contains_name(&kept_list, self.added[k].as_str()) {
                out.push(self.added[k].clone());
                assert(views(out@) =~= prev.push(add[k as int]));
                assert(kept + f.push(add[k as int]) =~= (kept + f).push(add[k as int]));
            }
            assert(views(out@) =~= kept + add.take(k + 1).filter(new_pred));
            k = k + 1;
        }
        assert(add.take(self.added@.len() as int) =~= add);
        out
    }
}

/// After a reconciliation, the mods directory holds exactly the installed
/// names that are not `.jar` files or that the allow list names, and the
/// staged `.jar` files.
pub proof fn lemma_reconcile_result(
    installed: Seq<Seq<char>>,
    staged: Seq<Seq<char>>,
    allow: Seq<Seq<char>>,
    name: Seq<char>,
)
    ensures
        mods_after(installed, removed_mods(installed, allow), added_mods(staged)).contains(name)
            <==> ((installed.contains(name) && (!is_jar(name) || allow.contains(name))) || (
        staged.contains(name) && is_jar(name))),
{
    let removed = removed_mods(installed, allow);
    let added = added_mods(staged);
    let kept = kept_mods(installed, removed);
    let drop_pred = |n: Seq<char>| is_jar(n) && !allow.contains(n);
    let keep_pred = |n: Seq<char>| !removed.contains(n);
    let jar_pred = |n: Seq<char>| is_jar(n);
    let new_pred = |n: Seq<char>| !kept.contains(n);
    let result = mods_after(installed, removed, added);
    assert(result == kept + added.filter(new_pred));
    if installed.contains(name) {
        let i = choose|i: int| 0 <= i < installed.len() && installed[i] == name;
        if drop_pred(name) {
            installed.lemma_filter_contains(drop_pred, i);
        } else {
            if removed.contains(name) {
                installed.lemma_filter_contains_rev(drop_pred, name);
                let j = choose|j: int| 0 <= j < removed.len() && removed[j] == name;
                installed.lemma_filter_pred(drop_pred, j);
            }
            installed.lemma_filter_contains(keep_pred, i);
        }
    }
    if kept.contains(name) {
        installed.lemma_filter_contains_rev(keep_pred, name);
        let j = choose|j: int| 0 <= j < kept.len() && kept[j] == name;
        installed.lemma_filter_pred(keep_pred, j);
        if drop_pred(name) {
            let i = choose|i: int| 0 <= i < installed.len() && installed[i] == name;
            installed.lemma_filter_contains(drop_pred, i);
        }
        assert(result[j] == name);
    }
    if staged.contains(name) && is_jar(name) {
        let i = choose|i: int| 0 <= i < staged.len() && staged[i] == name;
        staged.lemma_filter_contains(jar_pred, i);
        if !kept.contains(name) {
            let j = choose|j: int| 0 <= j < added.len() && added[j] == name;
            added.lemma_filter_contains(new_pred, j);
            let t = choose|t: int|
                0 <= t < added.filter(new_pred).len() && added.filter(new_pred)[t] == name;
            assert(result[kept.len() + t] == name);
        }
    }
    if result.contains(name) {
        let t = choose|t: int| 0 <= t < result.len() && result[t] == name;
        if t >= kept.len() {
            let u = t - kept.len();
            assert(added.filter(new_pred)[u] == name);
            assert(added.filter(new_pred).contains(name));
            added.lemma_filter_contains_rev(new_pred, name);
            staged.lemma_filter_contains_rev(jar_pred, name);
            let j = choose|j: int| 0 <= j < added.len() && added[j] == name;
            staged.lemma_filter_pred(jar_pred, j);
        } else {
            assert(kept[t] == name);
        }
    }
}

} // verus!
