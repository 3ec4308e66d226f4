//! The backends that a server can connect to, by name.
use crate::capabilities::BackendCapabilities;
use crate::factory::BackendFactory;
use crate::text::{
    is_text_less, join_from, joined, same_text, text2, text3, text_less,
    text_less_is_a_strict_order, texts,
};
use std::sync::Arc;
use vstd::prelude::*;
use vstd::string::*;

verus! {

broadcast use vstd::string::group_string_axioms;

/// The backend that is connected to by default: WinDbg on Windows, and LLDB elsewhere.
pub fn default_backend_for_os(windows: bool) -> (r: &'static str)
    ensures
        r@ == (if windows {
            "windbg"@
        } else {
            "lldb"@
        }),
{
    if windows {
        "windbg"
    } else {
        "lldb"
    }
}

/// The factories in a list, by name.
pub open spec fn by_name<F: BackendFactory + ?Sized>(list: Seq<Arc<F>>) -> Map<Seq<char>, Arc<F>> {
    Map::new(
        |name: Seq<char>| exists|i: int| 0 <= i < list.len() && #[trigger] list[i].named() == name,
        |name: Seq<char>| list[place_of(list, name)],
    )
}

/// Where in a list a factory stands.
pub open spec fn place_of<F: BackendFactory + ?Sized>(list: Seq<Arc<F>>, name: Seq<char>) -> int {
    choose|i: int| 0 <= i < list.len() && #[trigger] list[i].named() == name
}

/// Whether no two factories of a list have the same name.
pub open spec fn distinct_names<F: BackendFactory + ?Sized>(list: Seq<Arc<F>>) -> bool {
    forall|i: int, j: int|
        0 <= i < j < list.len() ==> #[trigger] list[i].named() != #[trigger] list[j].named()
}

/// Whether `names` are the names in `all`, each once, in order.
pub open spec fn are_sorted_names(names: Seq<Seq<char>>, all: Set<Seq<char>>) -> bool {
    &&& forall|i: int, j: int| 0 <= i < j < names.len() ==> text_less(names[i], names[j])
    &&& forall|name: Seq<char>| #[trigger] names.contains(name) <==> all.contains(name)
}

/// The texts of a list of names.
pub open spec fn name_texts(names: Seq<&'static str>) -> Seq<Seq<char>> {
    names.map_values(|s: &'static str| s@)
}

/// A name that was given; an empty one is as good as none.
pub open spec fn given(name: Option<&str>) -> Option<Seq<char>> {
    match name {
        Some(name) if name@.len() > 0 => Some(name@),
        _ => None,
    }
}

/// The backend to connect to: the one that is asked for, else the one that the environment names,
/// else the default.
pub open spec fn chosen_name(
    requested: Option<&str>,
    env_value: Option<&str>,
    default_name: Seq<char>,
) -> Seq<char> {
    match (given(requested), given(env_value)) {
        (Some(name), _) => name,
        (None, Some(name)) => name,
        (None, None) => default_name,
    }
}

/// The backends that a server can connect to.
pub struct BackendRegistry<F: ?Sized> {
    factories: Vec<Arc<F>>,
    default_name: &'static str,
    capabilities: BackendCapabilities,
}

impl<F: BackendFactory + ?Sized> View for BackendRegistry<F> {
    type V = Map<Seq<char>, Arc<F>>;

    open spec fn view(&self) -> Map<Seq<char>, Arc<F>> {
        by_name(self.registered())
    }
}

proof fn by_name_at<F: BackendFactory + ?Sized>(list: Seq<Arc<F>>, i: int)
    requires
        distinct_names(list),
        0 <= i < list.len(),
    ensures
        by_name(list).contains_key(list[i].named()),
        by_name(list)[list[i].named()] == list[i],
{
    let name = list[i].named();
    let p = place_of(list, name);
    assert(0 <= p < list.len() && list[p].named() == name);
    assert(p == i);
}

impl<F: BackendFactory + ?Sized> BackendRegistry<F> {
    /// The factories, in the order in which their names were registered first.
    pub closed spec fn registered(&self) -> Seq<Arc<F>> {
        self.factories@
    }

    /// The name of the default backend.
    pub closed spec fn fallback(&self) -> Seq<char> {
        self.default_name@
    }

    /// What the registered backends can do, taken together.
    pub closed spec fn union(&self) -> BackendCapabilities {
        self.capabilities
    }

    /// Whether the registry is in order: one factory for each name, and nothing that one of them
    /// can do is missing from the union.
    pub open spec fn well_formed(&self) -> bool {
        &&& distinct_names(self.registered())
        &&& forall|i: int|
            0 <= i < self.registered().len() ==> (#[trigger] self.registered()[i]).capable().within(
                self.union(),
            )
    }

    /// A registry of no backends.
    pub fn new(default_name: &'static str) -> (r: BackendRegistry<F>)
        ensures
            r.well_formed(),
            r@ == Map::<Seq<char>, Arc<F>>::empty(),
            r.registered().len() == 0,
            r.fallback() == default_name@,
            r.union() == BackendCapabilities::none(),
    {
        let r = BackendRegistry {
            factories: Vec::new(),
            default_name,
            capabilities: BackendCapabilities {
                crash_dump: false,
                kernel: false,
                analyze: false,
                modules: false,
            },
        };
        assert(r@ =~= Map::<Seq<char>, Arc<F>>::empty());
        r
    }

    fn find(&self, name: &str) -> (r: Option<usize>)
        requires
            self.well_formed(),
        ensures
            match r {
                Some(i) => i < self.registered().len() && self.registered()[i as int].named()
                    == name@ && self@.contains_key(name@) && self@[name@]
                    == self.registered()[i as int],
                None => !self@.contains_key(name@),
            },
    {
        let mut i: usize = 0;
        while i < self.factories.len()
            invariant
                i <= self.factories@.len(),
                self.well_formed(),
                forall|j: int| 0 <= j < i ==> #[trigger] self.factories@[j].named() != name@,
            decreases self.factories@.len() - i,
        {
            if same_text(self.factories[i].name(), name) {
                proof {
                    by_name_at(self.registered(), i as int);
                }
                return Some(i);
            }
            i = i + 1;
        }
        None
    }

    /// Registers a factory under its name, in place of the one that had the name. What it can do
    /// is added to the union; nothing is taken out of that again.
    pub fn register(&mut self, f: Arc<F>)
        requires
            old(self).well_formed(),
        ensures
            final(self).well_formed(),
            final(self)@ == old(self)@.insert(f.named(), f),
            final(self).union() == old(self).union().union(f.capable()),
            final(self).fallback() == old(self).fallback(),
    {
        let caps: BackendCapabilities = f.capabilities();
        let ghost name = f.named();
        let ghost before = self.factories@;
        let ghost union = self.capabilities;
        let found: Option<usize> = self.find(f.name());
        self.capabilities = BackendCapabilities {
            crash_dump: self.capabilities.crash_dump || caps.crash_dump,
            kernel: self.capabilities.kernel || caps.kernel,
            analyze: self.capabilities.analyze || caps.analyze,
            modules: self.capabilities.modules || caps.modules,
        };
        let ghost factory = f;
        match found {
            Some(i) => {
                self.factories.set(i, f);
            },
            None => {
                self.factories.push(f);
            },
        }
        proof {
            let after = self.factories@;
            let at: int = match found {
                Some(i) => i as int,
                None => before.len() as int,
            };
            assert(after[at] == factory);
            assert(after[at].named() == name);
            assert forall|j: int| 0 <= j < after.len() && j != at implies j < before.len()
                && #[trigger] after[j] == before[j] && before[j].named() != name by {
                if found is None {
                    assert(before[j].named() != name) by {
                        by_name_at(before, j);
                    }
                }
            }
            assert forall|a: int, b: int| 0 <= a < b < after.len() implies #[trigger] after[a].named()
                != #[trigger] after[b].named() by {
                if a != at && b != at {
                    assert(before[a].named() != before[b].named());
                }
            }
            assert forall|j: int| 0 <= j < after.len() implies (
            #[trigger] after[j]).capable().within(self.capabilities) by {
                if j != at {
                    assert(before[j].capable().within(union));
                }
            }
            assert forall|n: Seq<char>| by_name(before).insert(name, factory).contains_key(n)
                == by_name(after).contains_key(n) by {
                if by_name(before).contains_key(n) && n != name {
                    let j = place_of(before, n);
                    assert(before[j].named() == n);
                    assert(after[j].named() == n);
                }
                if by_name(after).contains_key(n) {
                    let j = place_of(after, n);
                    assert(after[j].named() == n);
                    if j != at {
                        assert(before[j].named() == n);
                    }
                }
            }
            assert forall|n: Seq<char>| by_name(after).contains_key(n) implies by_name(
                before,
            ).insert(name, factory)[n] == by_name(after)[n] by {
                let j = place_of(after, n);
                assert(after[j].named() == n);
                by_name_at(after, j);
                if j != at {
                    by_name_at(before, j);
                }
            }
            assert(self@ =~= old(self)@.insert(name, factory));
        }
    }

    /// The backend to connect to, given what is asked for and what the environment names.
    pub fn select_with_env(&self, requested: Option<&str>, env_value: Option<&str>) -> (r: Result<
        Arc<F>,
        String,
    >)
        requires
            self.well_formed(),
        ensures
            ({
                let name = chosen_name(requested, env_value, self.fallback());
                match r {
                    Ok(f) => self@.contains_key(name) && self@[name] == f && f.named() == name,
                    Err(e) => !self@.contains_key(name) && exists|names: Seq<Seq<char>>|
                        #[trigger] are_sorted_names(names, self@.dom()) && e@
                            == "unknown backend '"@ + name + "'; available: "@ + joined(
                            names,
                            ", "@,
                        ),
                }
            }),
    {
        let name: &str = match requested {
            Some(asked) if !asked.is_empty() => asked,
            _ => match env_value {
                Some(named) if !named.is_empty() => named,
                _ => self.default_name,
            },
        };
        match self.find(name) {
            Some(i) => Ok(self.factories[i].clone()),
            None => {
                let list: String = self.comma_list();
                let head: String = text3("unknown backend '", name, "'; available: ");
                Err(text2(head.as_str(), list.as_str()))
            },
        }
    }

    /// What the registered backends can do, taken together.
    pub fn capabilities(&self) -> (r: BackendCapabilities)
        ensures
            r == self.union(),
    {
        self.capabilities
    }

    /// The name of the default backend.
    pub fn default_name(&self) -> (r: &'static str)
        ensures
            r@ == self.fallback(),
    {
        self.default_name
    }

    /// The names of the registered backends, in order.
    pub fn available_names(&self) -> (r: Vec<&'static str>)
        requires
            self.well_formed(),
        ensures
            are_sorted_names(name_texts(r@), self@.dom()),
    {
        let mut names: Vec<&'static str> = Vec::new();
        let mut i: usize = 0;
        assert(by_name(self.factories@.take(0)).dom() =~= Set::<Seq<char>>::empty());
        assert(are_sorted_names(name_texts(names@), by_name(self.factories@.take(0)).dom()));
        while i < self.factories.len()
            invariant
                i <= self.factories@.len(),
                self.well_formed(),
                are_sorted_names(
                    name_texts(names@),
                    by_name(self.factories@.take(i as int)).dom(),
                ),
            decreases self.factories@.len() - i,
        {
            let ghost part = by_name(self.factories@.take(i as int)).dom();
            let name: &'static str = self.factories[i].name();
            proof {
                let all = self.factories@;
                if part.contains(name@) {
                    let j = choose|j: int|
                        0 <= j < i && #[trigger] all.take(i as int)[j].named() == name@;
                    assert(all[j].named() == all[i as int].named());
                    assert(false);
                }
                assert forall|n: Seq<char>| by_name(all.take(i + 1)).dom().contains(n)
                    == part.insert(name@).contains(n) by {
                    if part.contains(n) {
                        let j = choose|j: int|
                            0 <= j < i && #[trigger] all.take(i as int)[j].named() == n;
                        assert(all.take(i + 1)[j].named() == n);
                    }
                    if n == name@ {
                        assert(all.take(i + 1)[i as int].named() == n);
                    }
                    if by_name(all.take(i + 1)).dom().contains(n) && n != name@ {
                        let j = choose|j: int|
                            0 <= j < i + 1 && #[trigger] all.take(i + 1)[j].named() == n;
                        assert(all.take(i as int)[j].named() == n);
                    }
                }
                assert(by_name(all.take(i + 1)).dom() =~= part.insert(name@));
            }
            insert_sorted(&mut names, name, Ghost(part));
            i = i + 1;
        }
        assert(self.factories@.take(i as int) =~= self.factories@);
        names
    }

    fn comma_list(&self) -> (r: String)
        requires
            self.well_formed(),
        ensures
            exists|names: Seq<Seq<char>>| #[trigger]
                are_sorted_names(names, self@.dom()) && r@ == joined(names, ", "@),
    {
        let names: Vec<&'static str> = self.available_names();
        let mut list: Vec<String> = Vec::new();
        let mut i: usize = 0;
        while i < names.len()
            invariant
                i <= names@.len(),
                texts(list@) == name_texts(names@).take(i as int),
            decreases names@.len() - i,
        {
            let ghost before = texts(list@);
            let name: &str = names[i];
            list.push(name.to_owned());
            assert(texts(list@) =~= before.push(name@));
            i = i + 1;
            assert(texts(list@) =~= name_texts(names@).take(i as int));
        }
        assert(texts(list@).skip(0) =~= name_texts(names@));
        assert(are_sorted_names(name_texts(names@), self@.dom()));
        join_from(&list, 0, ", ")
    }
}

fn insert_sorted(names: &mut Vec<&'static str>, name: &'static str, all: Ghost<Set<Seq<char>>>)
    requires
        are_sorted_names(name_texts(old(names)@), all@),
        !all@.contains(name@),
    ensures
        are_sorted_names(name_texts(final(names)@), all@.insert(name@)),
{
    let ghost before = name_texts(names@);
    let mut at: usize = 0;
    while at < names.len() && is_text_less(names[at], name)
        invariant
            at <= names@.len(),
            names@ == old(names)@,
            before == name_texts(names@),
            forall|j: int| 0 <= j < at ==> text_less(#[trigger] before[j], name@),
        decreases names@.len() - at,
    {
        assert(before[at as int] == names@[at as int]@);
        at = at + 1;
    }
    proof {
        if at < before.len() {
            assert(before[at as int] == names@[at as int]@);
            assert(before.contains(before[at as int]));
            text_less_is_a_strict_order(before[at as int], name@, name@);
            assert(text_less(name@, before[at as int]));
            assert forall|j: int| at <= j < before.len() implies text_less(
                name@,
                #[trigger] before[j],
            ) by {
                text_less_is_a_strict_order(name@, before[at as int], before[j]);
            }
        }
    }
    names.insert(at, name);
    proof {
        let after = name_texts(names@);
        assert(after =~= before.insert(at as int, name@));
        assert forall|i: int, j: int| 0 <= i < j < after.len() implies text_less(
            after[i],
            after[j],
        ) by {
            if j < at {
                assert(text_less(before[i], before[j]));
            } else if i == at {
                assert(text_less(name@, before[j - 1]));
            } else if j == at {
                assert(text_less(before[i], name@));
            } else if i < at {
                assert(text_less(before[i], before[j - 1]));
            } else {
                assert(text_less(before[i - 1], before[j - 1]));
            }
        }
        assert forall|n: Seq<char>| #[trigger] after.contains(n) <==> all@.insert(
            name@,
        ).contains(n) by {
            if after.contains(n) {
                let i = choose|i: int| 0 <= i < after.len() && after[i] == n;
                if i < at {
                    assert(before[i] == n);
                    assert(before.contains(n));
                } else if i > at {
                    assert(before[i - 1] == n);
                    assert(before.contains(n));
                }
            }
            if all@.contains(n) {
                assert(before.contains(n));
                let i = choose|i: int| 0 <= i < before.len() && before[i] == n;
                if i < at {
                    assert(after[i] == n);
                } else {
                    assert(after[i + 1] == n);
                }
            }
            assert(after[at as int] == name@);
        }
    }
}

// ---- what holds of every registry ----

/// What is asked for goes before what the environment names, and that before the default; an
/// empty name counts for nothing.
pub proof fn selection_has_its_order(requested: &str, env_value: &str, default_name: Seq<char>)
    ensures
        requested@.len() > 0 ==> chosen_name(Some(requested), Some(env_value), default_name)
            == requested@,
        requested@.len() == 0 ==> chosen_name(Some(requested), Some(env_value), default_name)
            == chosen_name(None, Some(env_value), default_name),
        env_value@.len() > 0 ==> chosen_name(None, Some(env_value), default_name) == env_value@,
        env_value@.len() == 0 ==> chosen_name(None, Some(env_value), default_name)
            == chosen_name(None, None, default_name),
        chosen_name(None, None, default_name) == default_name,
{
}

/// There is only one list of names in order.
pub proof fn sorted_names_are_unique(a: Seq<Seq<char>>, b: Seq<Seq<char>>, all: Set<Seq<char>>)
    requires
        are_sorted_names(a, all),
        are_sorted_names(b, all),
    ensures
        a == b,
    decreases a.len() + b.len(),
{
    if a.len() == 0 || b.len() == 0 {
        if a.len() > 0 {
            assert(a.contains(a[0]));
            assert(b.contains(a[0]));
        }
        if b.len() > 0 {
            assert(b.contains(b[0]));
            assert(a.contains(b[0]));
        }
        assert(a =~= b);
    } else {
        let x = a.last();
        let y = b.last();
        assert(a.contains(a[a.len() - 1]));
        assert(b.contains(b[b.len() - 1]));
        assert(b.contains(x) && a.contains(y));
        let i = choose|i: int| 0 <= i < b.len() && b[i] == x;
        let j = choose|j: int| 0 <= j < a.len() && a[j] == y;
        text_less_is_a_strict_order(x, y, x);
        if x != y {
            assert(text_less(b[i], b[b.len() - 1]));
            assert(text_less(a[j], a[a.len() - 1]));
            assert(false);
        }
        let rest = all.remove(x);
        without_last(a, all);
        without_last(b, all);
        sorted_names_are_unique(a.drop_last(), b.drop_last(), rest);
        assert(a =~= a.drop_last().push(x));
        assert(b =~= b.drop_last().push(x));
    }
}

proof fn without_last(a: Seq<Seq<char>>, all: Set<Seq<char>>)
    requires
        are_sorted_names(a, all),
        a.len() > 0,
    ensures
        are_sorted_names(a.drop_last(), all.remove(a.last())),
{
    let rest = a.drop_last();
    assert forall|n: Seq<char>| #[trigger] rest.contains(n) <==> all.remove(a.last()).contains(
        n,
    ) by {
        if rest.contains(n) {
            let i = choose|i: int| 0 <= i < rest.len() && rest[i] == n;
            assert(a[i] == n);
            assert(a.contains(n));
            assert(text_less(a[i], a[a.len() - 1]));
            text_less_is_a_strict_order(n, n, n);
        }
        if all.contains(n) && n != a.last() {
            assert(a.contains(n));
            let i = choose|i: int| 0 <= i < a.len() && a[i] == n;
            assert(rest[i] == n);
        }
    }
}

} // verus!
