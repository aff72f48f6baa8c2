//! A table from shortcuts to the actions they trigger.
use vstd::prelude::*;

use super::{shortcut_text, KeyEvent, Keybind, Shortcut};
use crate::strings::join_with;

verus! {

/// An action that a shortcut can be bound to.
pub trait Action: Copy {
    /// Whether both actions are the same.
    fn same_action(&self, other: &Self) -> (r: bool)
        ensures
            r == (*self == *other);
}

/// Shortcuts and the actions they trigger; each shortcut triggers at most one
/// action, an action may have several shortcuts.
#[derive(Debug)]
pub struct KeybindsStore<A> {
    shortcut_actions: Vec<(Shortcut, A)>,
}

/// The map that a list of distinct shortcut/action pairs stands for.
pub open spec fn entries_map<A>(entries: Seq<(Shortcut, A)>) -> Map<Shortcut, A> {
    Map::new(
        |s: Shortcut| exists|i: int| 0 <= i < entries.len() && entries[i].0 == s,
        |s: Shortcut| entries[choose|i: int| 0 <= i < entries.len() && entries[i].0 == s].1,
    )
}

/// No shortcut occurs twice in the list.
pub open spec fn distinct_shortcuts<A>(entries: Seq<(Shortcut, A)>) -> bool {
    forall|i: int, j: int|
        0 <= i < entries.len() && 0 <= j < entries.len() && i != j ==> entries[i].0 != entries[j].0
}

/// The table after binding each shortcut of `key` to `action` in place of the
/// shortcuts it had; `true` keeps the table, `false` only unbinds `action`.
pub open spec fn rebound<A>(m: Map<Shortcut, A>, action: A, key: Keybind) -> Map<Shortcut, A> {
    match key {
        Keybind::Enable(true) => m,
        Keybind::Enable(false) => m.restrict(m.dom().filter(|s: Shortcut| m[s] != action)),
        Keybind::Single(s) => m.restrict(m.dom().filter(|s: Shortcut| m[s] != action)).insert(
            s,
            action,
        ),
        Keybind::Multiple(list) => m.restrict(m.dom().filter(|s: Shortcut| m[s] != action)).union_prefer_right(
            Map::new(|s: Shortcut| list@.contains(s), |s: Shortcut| action),
        ),
    }
}

impl<A> View for KeybindsStore<A> {
    type V = Map<Shortcut, A>;

    closed spec fn view(&self) -> Map<Shortcut, A> {
        entries_map(self.shortcut_actions@)
    }
}

impl<A> KeybindsStore<A> {
    #[verifier::type_invariant]
    closed spec fn wf(&self) -> bool {
        distinct_shortcuts(self.shortcut_actions@)
    }
}

impl<A: Action> KeybindsStore<A> {
    proof fn lemma_view_at(&self, i: int)
        requires
            self.wf(),
            0 <= i < self.shortcut_actions@.len(),
        ensures
            self@.contains_key(self.shortcut_actions@[i].0),
            self@[self.shortcut_actions@[i].0] == self.shortcut_actions@[i].1,
    {
        let e = self.shortcut_actions@;
        let s = e[i].0;
        let j = choose|j: int| 0 <= j < e.len() && e[j].0 == s;
        assert(j == i);
    }

    /// An empty table.
    pub fn new() -> (r: Self)
        ensures
            r@ == Map::<Shortcut, A>::empty(),
    {
        let r = KeybindsStore { shortcut_actions: Vec::new() };
        assert(r@ =~= Map::<Shortcut, A>::empty());
        r
    }

    /// The position of shortcut `s` in the table, if it is bound.
    fn position(&self, s: Shortcut) -> (r: Option<usize>)
        ensures
            r matches Some(i) ==> i < self.shortcut_actions@.len() && self.shortcut_actions@[i as int].0 == s,
            r is None ==> !self@.contains_key(s),
    {
        let mut i: usize = 0;
        while i < self.shortcut_actions.len()
            invariant
                i <= self.shortcut_actions@.len(),
                forall|j: int| 0 <= j < i ==> self.shortcut_actions@[j].0 != s,
            decreases self.shortcut_actions@.len() - i,
        {
            if self.shortcut_actions[i].0 == s {
                return Some(i);
            }
            i = i + 1;
        }
        None
    }

    /// The action bound to the shortcut of a key press, if any.
    pub fn match_event(&self, event: KeyEvent) -> (r: Option<A>)
        ensures
            ({
                let s = Shortcut::from_event_spec(event);
                &&& r is Some <==> self@.contains_key(s)
                &&& r matches Some(a) ==> a == self@[s]
            }),
    {
        proof {
            use_type_invariant(self);
        }
        let s = Shortcut::from_event(event);
        match self.position(s) {
            Some(i) => {
                proof {
                    self.lemma_view_at(i as int);
                }
                Some(self.shortcut_actions[i].1)
            },
            None => None,
        }
    }

    /// Binds `shortcut` to `action`, in place of what it was bound to.
    pub fn add_action(&mut self, shortcut: Shortcut, action: A)
        ensures
            final(self)@ == old(self)@.insert(shortcut, action),
    {
        proof {
            use_type_invariant(&*self);
        }
        let ghost before = self.shortcut_actions@;
        match self.position(shortcut) {
            Some(i) => {
                let mut entries: Vec<(Shortcut, A)> = Vec::new();
                std::mem::swap(&mut entries, &mut self.shortcut_actions);
                entries.set(i, (shortcut, action));
                proof {
                    assert(distinct_shortcuts(entries@)) by {
                        assert forall|a: int, b: int|
                            0 <= a < entries@.len() && 0 <= b < entries@.len() && a != b implies entries@[a].0 != entries@[b].0 by {
                            if a != i && b != i {
                                assert(before[a].0 != before[b].0);
                            } else if a == i {
                                assert(before[i as int].0 != before[b].0);
                            } else {
                                assert(before[a].0 != before[i as int].0);
                            }
                        }
                    }
                    assert(entries_map(entries@) =~= entries_map(before).insert(shortcut, action)) by {
                        assert forall|s: Shortcut| #[trigger] entries_map(entries@).contains_key(s) implies
                            entries_map(entries@)[s] == entries_map(before).insert(shortcut, action)[s] by {
                            let j = choose|j: int| 0 <= j < entries@.len() && entries@[j].0 == s;
                            if s != shortcut {
                                let k = choose|k: int| 0 <= k < before.len() && before[k].0 == s;
                                assert(before[j].0 == s);
                                if k != j {
                                    assert(before[k].0 != before[j].0);
                                }
                            } else {
                                assert(j == i);
                            }
                        }
                        assert forall|s: Shortcut| entries_map(before).insert(shortcut, action).contains_key(s) implies
                            #[trigger] entries_map(entries@).contains_key(s) by {
                            if s != shortcut {
                                let k = choose|k: int| 0 <= k < before.len() && before[k].0 == s;
                                assert(entries@[k].0 == s);
                            } else {
                                assert(entries@[i as int].0 == s);
                            }
                        }
                    }
                }
                self.shortcut_actions = entries;
            },
            None => {
                let mut entries: Vec<(Shortcut, A)> = Vec::new();
                std::mem::swap(&mut entries, &mut self.shortcut_actions);
                entries.push((shortcut, action));
                proof {
                    let n = before.len();
                    assert forall|k: int| 0 <= k < n implies before[k].0 != shortcut by {
                        if before[k].0 == shortcut {
                            assert(entries_map(before).contains_key(shortcut));
                        }
                    }
                    assert(distinct_shortcuts(entries@));
                    assert(entries_map(entries@) =~= entries_map(before).insert(shortcut, action)) by {
                        assert forall|s: Shortcut| #[trigger] entries_map(entries@).contains_key(s) implies
                            entries_map(entries@)[s] == entries_map(before).insert(shortcut, action)[s] by {
                            let j = choose|j: int| 0 <= j < entries@.len() && entries@[j].0 == s;
                            if s != shortcut {
                                let k = choose|k: int| 0 <= k < before.len() && before[k].0 == s;
                                assert(entries@[k].0 == s);
                                if k != j {
                                    assert(entries@[k].0 != entries@[j].0);
                                }
                            } else {
                                assert(j == n);
                            }
                        }
                        assert forall|s: Shortcut| entries_map(before).insert(shortcut, action).contains_key(s) implies
                            #[trigger] entries_map(entries@).contains_key(s) by {
                            if s != shortcut {
                                let k = choose|k: int| 0 <= k < before.len() && before[k].0 == s;
                                assert(entries@[k].0 == s);
                            } else {
                                assert(entries@[n as int].0 == s);
                            }
                        }
                    }
                }
                self.shortcut_actions = entries;
            },
        }
    }
}

impl<A: Action> KeybindsStore<A> {
    /// The shortcuts bound to `action`, each once, in no particular order.
    pub fn get_shortcuts(&self, action: A) -> (r: Vec<Shortcut>)
        ensures
            r@.no_duplicates(),
            forall|s: Shortcut| r@.contains(s) <==> (self@.contains_key(s) && self@[s] == action),
    {
        proof {
            use_type_invariant(self);
        }
        let ghost e = self.shortcut_actions@;
        let mut r: Vec<Shortcut> = Vec::new();
        let mut i: usize = 0;
        while i < self.shortcut_actions.len()
            invariant
                i <= e.len(),
                e == self.shortcut_actions@,
                distinct_shortcuts(e),
                r@.no_duplicates(),
                forall|s: Shortcut| r@.contains(s) <==> (exists|j: int| 0 <= j < i && e[j].0 == s && e[j].1 == action),
            decreases e.len() - i,
        {
            let (sc, a) = self.shortcut_actions[i];
            if a.same_action(&action) {
                proof {
                    assert(!r@.contains(sc)) by {
                        if r@.contains(sc) {
                            let j = choose|j: int| 0 <= j < i && e[j].0 == sc && e[j].1 == action;
                            assert(e[j].0 != e[i as int].0);
                        }
                    }
                }
                let ghost prev = r@;
                r.push(sc);
                proof {
                    assert forall|s: Shortcut| r@.contains(s) <==> (exists|j: int| 0 <= j < i + 1 && e[j].0 == s && e[j].1 == action) by {
                        if r@.contains(s) && s != sc {
                            let k = choose|k: int| 0 <= k < r@.len() && r@[k] == s;
                            assert(prev.contains(s)) by { assert(prev[k] == s); }
                        }
                        if exists|j: int| 0 <= j < i + 1 && e[j].0 == s && e[j].1 == action {
                            let j = choose|j: int| 0 <= j < i + 1 && e[j].0 == s && e[j].1 == action;
                            if j < i {
                                assert(prev.contains(s));
                                let k = choose|k: int| 0 <= k < prev.len() && prev[k] == s;
                                assert(r@[k] == s);
                            } else {
                                assert(r@[prev.len() as int] == s);
                            }
                        }
                    }
                }
            } else {
                proof {
                    assert forall|s: Shortcut| r@.contains(s) <==> (exists|j: int| 0 <= j < i + 1 && e[j].0 == s && e[j].1 == action) by {
                        if exists|j: int| 0 <= j < i + 1 && e[j].0 == s && e[j].1 == action {
                            let j = choose|j: int| 0 <= j < i + 1 && e[j].0 == s && e[j].1 == action;
                            assert(j != i);
                        }
                    }
                }
            }
            i = i + 1;
        }
        proof {
            assert forall|s: Shortcut| r@.contains(s) <==> (self@.contains_key(s) && self@[s] == action) by {
                if self@.contains_key(s) {
                    let j = choose|j: int| 0 <= j < e.len() && e[j].0 == s;
                    self.lemma_view_at(j);
                    if self@[s] == action {
                        assert(e[j].1 == action);
                    }
                }
                if exists|j: int| 0 <= j < e.len() && e[j].0 == s && e[j].1 == action {
                    let j = choose|j: int| 0 <= j < e.len() && e[j].0 == s && e[j].1 == action;
                    self.lemma_view_at(j);
                }
            }
        }
        r
    }

    /// Unbinds every shortcut of `action`.
    fn remove_action(&mut self, action: A)
        ensures
            final(self)@ == old(self)@.restrict(old(self)@.dom().filter(|s: Shortcut| old(self)@[s] != action)),
    {
        proof {
            use_type_invariant(&*self);
        }
        let ghost e = self.shortcut_actions@;
        let ghost old_view = self@;
        let mut kept: Vec<(Shortcut, A)> = Vec::new();
        let ghost mut src: Seq<int> = seq![];
        let mut i: usize = 0;
        while i < self.shortcut_actions.len()
            invariant
                i <= e.len(),
                e == self.shortcut_actions@,
                distinct_shortcuts(e),
                src.len() == kept@.len(),
                forall|k: int| 0 <= k < src.len() ==> 0 <= #[trigger] src[k] < i && kept@[k] == e[src[k]] && e[src[k]].1 != action,
                forall|a: int, b: int| 0 <= a < b < src.len() ==> src[a] < src[b],
                forall|j: int| 0 <= j < i && e[j].1 != action ==> exists|k: int| 0 <= k < src.len() && src[k] == j,
            decreases e.len() - i,
        {
            let entry = self.shortcut_actions[i];
            if !entry.1.same_action(&action) {
                kept.push(entry);
                proof {
                    let old_src = src;
                    src = src.push(i as int);
                    assert forall|j: int| 0 <= j < i + 1 && e[j].1 != action implies exists|k: int| 0 <= k < src.len() && src[k] == j by {
                        if j == i {
                            assert(src[src.len() - 1] == j);
                        } else {
                            let k = choose|k: int| 0 <= k < old_src.len() && old_src[k] == j;
                            assert(src[k] == j);
                        }
                    }
                }
            }
            i = i + 1;
        }
        proof {
            assert(distinct_shortcuts(kept@)) by {
                assert forall|a: int, b: int| 0 <= a < kept@.len() && 0 <= b < kept@.len() && a != b implies kept@[a].0 != kept@[b].0 by {
                    assert(src[a] != src[b]) by {
                        if a < b { assert(src[a] < src[b]); } else { assert(src[b] < src[a]); }
                    }
                }
            }
            let target = old_view.restrict(old_view.dom().filter(|s: Shortcut| old_view[s] != action));
            assert forall|s: Shortcut| #[trigger] entries_map(kept@).contains_key(s) implies
                target.contains_key(s) && entries_map(kept@)[s] == target[s] by {
                let k = choose|k: int| 0 <= k < kept@.len() && kept@[k].0 == s;
                let j = src[k];
                self.lemma_view_at(j);
                let k2 = choose|k2: int| 0 <= k2 < kept@.len() && kept@[k2].0 == s;
                if k2 != k {
                    assert(kept@[k2].0 != kept@[k].0);
                }
            }
            assert forall|s: Shortcut| target.contains_key(s) implies #[trigger] entries_map(kept@).contains_key(s) by {
                let j = choose|j: int| 0 <= j < e.len() && e[j].0 == s;
                self.lemma_view_at(j);
                let k = choose|k: int| 0 <= k < src.len() && src[k] == j;
                assert(kept@[k].0 == s);
            }
            assert(entries_map(kept@) =~= target);
        }
        self.shortcut_actions = kept;
    }

    /// Applies a configured binding to `action` (see `rebound`).
    pub fn replace_action_from_config(&mut self, action: A, key: &Keybind)
        ensures
            final(self)@ == rebound(old(self)@, action, *key),
    {
        // just ignore this case
        if let Keybind::Enable(true) = key {
            return;
        }
        self.remove_action(action);
        let ghost removed = self@;
        match key {
            Keybind::Single(s) => self.add_action(*s, action),
            Keybind::Multiple(list) => {
                let mut i: usize = 0;
                assert(removed =~= removed.union_prefer_right(Map::new(|s: Shortcut| list@.take(0).contains(s), |s: Shortcut| action)));
                while i < list.len()
                    invariant
                        i <= list@.len(),
                        self@ == removed.union_prefer_right(Map::new(|s: Shortcut| list@.take(i as int).contains(s), |s: Shortcut| action)),
                    decreases list@.len() - i,
                {
                    let ghost before = self@;
                    self.add_action(list[i], action);
                    proof {
                        let m1 = Map::new(|s: Shortcut| list@.take(i as int).contains(s), |s: Shortcut| action);
                        let m2 = Map::new(|s: Shortcut| list@.take(i + 1).contains(s), |s: Shortcut| action);
                        let t0 = list@.take(i as int);
                        let t1 = list@.take(i + 1);
                        assert forall|s: Shortcut| t1.contains(s) <==> (t0.contains(s) || s == list@[i as int]) by {
                            if t1.contains(s) {
                                let k = choose|k: int| 0 <= k < t1.len() && #[trigger] t1[k] == s;
                                if k < i { assert(t0[k] == s); }
                            }
                            if t0.contains(s) {
                                let k = choose|k: int| 0 <= k < t0.len() && #[trigger] t0[k] == s;
                                assert(t1[k] == s);
                            }
                            if s == list@[i as int] {
                                assert(t1[i as int] == s);
                            }
                        }
                        assert(self@ =~= removed.union_prefer_right(m2));
                    }
                    i = i + 1;
                }
                assert(list@.take(list@.len() as int) =~= list@);
            },
            Keybind::Enable(_) => {},
        }
    }

    /// The number of bound shortcuts.
    pub fn len(&self) -> (r: usize)
        ensures
            r == self@.dom().len(),
    {
        proof {
            use_type_invariant(self);
            let e = self.shortcut_actions@;
            let keys = e.map_values(|p: (Shortcut, A)| p.0);
            assert(keys.no_duplicates()) by {
                assert forall|a: int, b: int| 0 <= a < keys.len() && 0 <= b < keys.len() && a != b implies keys[a] != keys[b] by {
                    assert(e[a].0 != e[b].0);
                }
            }
            keys.unique_seq_to_set();
            assert(self@.dom() =~= keys.to_set()) by {
                assert forall|s: Shortcut| self@.dom().contains(s) implies keys.to_set().contains(s) by {
                    let j = choose|j: int| 0 <= j < e.len() && e[j].0 == s;
                    assert(keys[j] == s);
                }
                assert forall|s: Shortcut| keys.to_set().contains(s) implies self@.dom().contains(s) by {
                    let j = choose|j: int| 0 <= j < keys.len() && keys[j] == s;
                    assert(e[j].0 == s);
                }
            }
        }
        self.shortcut_actions.len()
    }
}

/// Some shortcut is bound to `a`.
pub open spec fn is_bound<A>(m: Map<Shortcut, A>, a: A) -> bool {
    exists|s: Shortcut| m.contains_key(s) && m[s] == a
}

/// The help entries whose action has a shortcut, in order.
pub open spec fn bound_items<A>(m: Map<Shortcut, A>, items: Seq<(A, Seq<char>)>) -> Seq<(A, Seq<char>)>
    decreases items.len(),
{
    if items.len() == 0 {
        seq![]
    } else {
        let rest = bound_items(m, items.drop_last());
        if is_bound(m, items.last().0) {
            rest.push(items.last())
        } else {
            rest
        }
    }
}

/// How each shortcut of a list is written.
pub open spec fn texts_of(ss: Seq<Shortcut>) -> Seq<Seq<char>> {
    ss.map_values(|s: Shortcut| shortcut_text(s))
}

/// `keys` writes all the shortcuts of `a`, each once, joined with `/`.
pub open spec fn writes_keys_of<A>(m: Map<Shortcut, A>, a: A, keys: Seq<char>) -> bool {
    exists|ss: Seq<Shortcut>|
        #![trigger texts_of(ss)]
        ss.no_duplicates() && (forall|s: Shortcut| ss.contains(s) <==> (m.contains_key(s) && m[s] == a))
            && keys == join_with(texts_of(ss), "/"@)
}

/// `lines` is the help for `items`: one line per entry whose action has a
/// shortcut, in order, holding the action's keys and the entry's text.
pub open spec fn is_help_for<A>(m: Map<Shortcut, A>, items: Seq<(A, Seq<char>)>, lines: Seq<(Seq<char>, Seq<char>)>) -> bool {
    let b = bound_items(m, items);
    &&& lines.len() == b.len()
    &&& forall|k: int| 0 <= k < b.len() ==> #[trigger] lines[k].1 == b[k].1 && writes_keys_of(m, b[k].0, lines[k].0)
}

/// The views of a list of text pairs.
pub open spec fn pair_views(v: Seq<(String, String)>) -> Seq<(Seq<char>, Seq<char>)> {
    v.map_values(|p: (String, String)| (p.0@, p.1@))
}

/// The views of a list of help entries.
pub open spec fn item_views<A>(v: Seq<(A, &str)>) -> Seq<(A, Seq<char>)> {
    v.map_values(|p: (A, &str)| (p.0, p.1@))
}

impl<A: Action> KeybindsStore<A> {
    /// The keys of `action`, written with `/` between them.
    fn keys_text(&self, action: A) -> (r: Option<String>)
        ensures
            r is Some <==> is_bound(self@, action),
            r matches Some(t) ==> writes_keys_of(self@, action, t@),
    {
        let shortcuts = self.get_shortcuts(action);
        if shortcuts.len() == 0 {
            proof {
                if is_bound(self@, action) {
                    let s = choose|s: Shortcut| self@.contains_key(s) && self@[s] == action;
                    assert(shortcuts@.contains(s));
                }
            }
            return None;
        }
        let ghost texts = texts_of(shortcuts@);
        let mut out = shortcuts[0].to_text();
        let mut i: usize = 1;
        while i < shortcuts.len()
            invariant
                1 <= i <= shortcuts@.len(),
                texts == texts_of(shortcuts@),
                out@ == join_with(texts.take(i as int), "/"@),
            decreases shortcuts@.len() - i,
        {
            out.append("/");
            let t = shortcuts[i].to_text();
            out.append(t.as_str());
            proof {
                assert(texts.take(i + 1).drop_last() =~= texts.take(i as int));
            }
            i = i + 1;
        }
        proof {
            assert(texts.take(i as int) =~= texts);
            assert(shortcuts@.contains(shortcuts@[0]));
        }
        Some(out)
    }

    /// The help lines for `items` (see `is_help_for`).
    pub fn make_help(&self, items: &Vec<(A, &str)>) -> (r: Vec<(String, String)>)
        ensures
            is_help_for(self@, item_views(items@), pair_views(r@)),
    {
        let ghost iv = item_views(items@);
        let mut r: Vec<(String, String)> = Vec::new();
        let mut i: usize = 0;
        while i < items.len()
            invariant
                i <= items@.len(),
                iv == item_views(items@),
                is_help_for(self@, iv.take(i as int), pair_views(r@)),
            decreases items@.len() - i,
        {
            let (action, text) = items[i];
            let ghost b_prev = bound_items(self@, iv.take(i as int));
            proof {
                assert(iv.take(i + 1).drop_last() =~= iv.take(i as int));
                assert(iv.take(i + 1).last() == (action, text@));
            }
            match self.keys_text(action) {
                Some(keys) => {
                    let ghost prev = pair_views(r@);
                    r.push((keys, text.to_owned()));
                    proof {
                        assert(pair_views(r@) =~= prev.push((keys@, text@)));
                        let b = bound_items(self@, iv.take(i + 1));
                        assert(b =~= b_prev.push((action, text@)));
                        assert forall|k: int| 0 <= k < b.len() implies #[trigger] pair_views(r@)[k].1 == b[k].1
                            && writes_keys_of(self@, b[k].0, pair_views(r@)[k].0) by {
                            if k < b_prev.len() {
                                assert(prev[k] == pair_views(r@)[k]);
                                assert(prev[k].1 == b_prev[k].1);
                                assert(writes_keys_of(self@, b_prev[k].0, prev[k].0));
                            } else {
                                assert(k == b_prev.len());
                                assert(pair_views(r@)[k] == (keys@, text@));
                            }
                        }
                        assert(is_help_for(self@, iv.take(i + 1), pair_views(r@)));
                    }
                },
                None => {
                    proof {
                        assert(bound_items(self@, iv.take(i + 1)) =~= b_prev);
                        assert(is_help_for(self@, iv.take(i + 1), pair_views(r@)));
                    }
                },
            }
            i = i + 1;
        }
        proof {
            assert(iv.take(i as int) =~= iv);
        }
        r
    }
}

impl<A: Action> Default for KeybindsStore<A> {
    fn default() -> (r: Self)
        ensures
            r@ == Map::<Shortcut, A>::empty(),
    {
        Self::new()
    }
}

impl Shortcut {
    /// The shortcut a key press stands for.
    pub open spec fn from_event_spec(event: KeyEvent) -> Shortcut {
        Shortcut { key: super::normalized_key(event.code), modifiers: event.modifiers }
    }
}


/// A shortcut that was just bound triggers its action: a key event that
/// stands for it is matched to that action.
pub proof fn lemma_added_binding_matches<A>(m: Map<Shortcut, A>, shortcut: Shortcut, action: A, event: KeyEvent)
    requires
        Shortcut::from_event_spec(event) == shortcut,
    ensures
        m.insert(shortcut, action).contains_key(Shortcut::from_event_spec(event)),
        m.insert(shortcut, action)[Shortcut::from_event_spec(event)] == action,
{
}

/// Binding a shortcut leaves every other shortcut as it was.
pub proof fn lemma_add_keeps_others<A>(m: Map<Shortcut, A>, shortcut: Shortcut, action: A, other: Shortcut)
    requires
        other != shortcut,
    ensures
        m.insert(shortcut, action).contains_key(other) == m.contains_key(other),
        m.contains_key(other) ==> m.insert(shortcut, action)[other] == m[other],
{
}

/// Disabling an action in the configuration unbinds all its shortcuts and
/// keeps every other binding.
pub proof fn lemma_disable_unbinds<A>(m: Map<Shortcut, A>, action: A, s: Shortcut)
    ensures
        rebound(m, action, Keybind::Enable(false)).contains_key(s) ==> m.contains_key(s)
            && rebound(m, action, Keybind::Enable(false))[s] == m[s] && m[s] != action,
        m.contains_key(s) && m[s] != action ==> rebound(m, action, Keybind::Enable(false)).contains_key(s),
{
}

/// Configuring a single shortcut for an action makes it the action's only
/// shortcut, and leaves the bindings of other actions, but for that
/// shortcut, as they were.
pub proof fn lemma_single_binding<A>(m: Map<Shortcut, A>, action: A, s: Shortcut, t: Shortcut)
    ensures
        rebound(m, action, Keybind::Single(s)).contains_key(s),
        rebound(m, action, Keybind::Single(s))[s] == action,
        t != s && rebound(m, action, Keybind::Single(s)).contains_key(t) ==> m.contains_key(t)
            && rebound(m, action, Keybind::Single(s))[t] == m[t] && m[t] != action,
        t != s && m.contains_key(t) && m[t] != action ==> rebound(m, action, Keybind::Single(s)).contains_key(t),
{
}

/// Configuring several shortcuts for an action makes them exactly the
/// action's shortcuts, and leaves the bindings of other actions, but for
/// those shortcuts, as they were.
pub proof fn lemma_multiple_binding<A>(m: Map<Shortcut, A>, action: A, list: Vec<Shortcut>, t: Shortcut)
    ensures
        (rebound(m, action, Keybind::Multiple(list)).contains_key(t)
            && rebound(m, action, Keybind::Multiple(list))[t] == action) <==> list@.contains(t),
        !list@.contains(t) && rebound(m, action, Keybind::Multiple(list)).contains_key(t) ==> m.contains_key(t)
            && rebound(m, action, Keybind::Multiple(list))[t] == m[t] && m[t] != action,
        !list@.contains(t) && m.contains_key(t) && m[t] != action ==> rebound(
            m,
            action,
            Keybind::Multiple(list),
        ).contains_key(t),
{
}

} // verus!
