//! The registry of VM templates: base images known by a friendly name.
//! Checking that a file exists and listing a directory happen outside.
use vstd::prelude::*;
use crate::backend::senescence::{debug_string_list, string_list_debug};
use crate::error::Error;
use crate::order::{insert_sorted, strictly_sorted};
use crate::path::{join_path, path_join};
use crate::text::{chars_of, owned, push_str, rsplit_once, rsplit_once_chars, str_eq, string_from_chars, views};

verus! {

/// The template a directory entry stands for: the file name before its
/// last dot when the extension after it is `qcow2` (as `Path::file_stem`
/// and `Path::extension` split a file name; a name that is nothing but a
/// dot and an extension has none).
pub open spec fn template_name_of(file_name: Seq<char>) -> Option<Seq<char>> {
    match rsplit_once(file_name, '.') {
        Some((stem, ext)) => if stem.len() > 0 && ext == "qcow2"@ {
            Some(stem)
        } else {
            None
        },
        None => None,
    }
}

/// The template a directory entry stands for, if any.
pub fn template_name_from_file(file_name: &str) -> (r: Option<String>)
    ensures
        match template_name_of(file_name@) {
            Some(n) => r matches Some(s) && s@ == n,
            None => r is None,
        },
{
    let cs = chars_of(file_name);
    match rsplit_once_chars(cs.as_slice(), '.') {
        Some((stem, ext)) => {
            let e = string_from_chars(ext.as_slice());
            if stem.len() > 0 && str_eq(e.as_str(), "qcow2") {
                Some(string_from_chars(stem.as_slice()))
            } else {
                None
            }
        },
        None => None,
    }
}

/// Whether some entry has this name.
pub open spec fn has_name(e: Seq<(String, String)>, n: Seq<char>) -> bool {
    exists|i: int| 0 <= i < e.len() && #[trigger] e[i].0@ == n
}

/// The position of the entry with this name.
pub open spec fn name_index(e: Seq<(String, String)>, n: Seq<char>) -> int {
    choose|i: int| 0 <= i < e.len() && #[trigger] e[i].0@ == n
}

/// No two entries share a name.
pub open spec fn distinct_names(e: Seq<(String, String)>) -> bool {
    forall|i: int, j: int| 0 <= i < j < e.len() ==> #[trigger] e[i].0@ != #[trigger] e[j].0@
}

/// The templates as a map from name to image path.
pub open spec fn template_map(e: Seq<(String, String)>) -> Map<Seq<char>, Seq<char>> {
    Map::new(|n: Seq<char>| has_name(e, n), |n: Seq<char>| e[name_index(e, n)].1@)
}

proof fn lemma_name_index(e: Seq<(String, String)>, n: Seq<char>, i: int)
    requires
        distinct_names(e),
        0 <= i < e.len(),
        e[i].0@ == n,
    ensures
        has_name(e, n),
        name_index(e, n) == i,
{
    assert(has_name(e, n));
    let k = name_index(e, n);
    if k < i {
        assert(e[k].0@ != e[i].0@);
    } else if k > i {
        assert(e[i].0@ != e[k].0@);
    }
}

/// Templates known by name.
pub struct TemplateRegistry {
    entries: Vec<(String, String)>,
}

impl TemplateRegistry {
    #[verifier::type_invariant]
    spec fn well_formed(&self) -> bool {
        distinct_names(self.entries@)
    }

    /// The templates, by name.
    pub closed spec fn templates(&self) -> Map<Seq<char>, Seq<char>> {
        template_map(self.entries@)
    }

    /// A registry without templates.
    pub fn new() -> (r: Self)
        ensures
            r.templates() == Map::<Seq<char>, Seq<char>>::empty(),
    {
        let r = TemplateRegistry { entries: Vec::new() };
        proof {
            assert(r.templates() =~= Map::<Seq<char>, Seq<char>>::empty());
        }
        r
    }

    fn position_of(&self, name: &str) -> (r: Option<usize>)
        ensures
            match r {
                Some(i) => i < self.entries@.len() && self.entries@[i as int].0@ == name@,
                None => !has_name(self.entries@, name@),
            },
    {
        let mut i: usize = 0;
        while i < self.entries.len()
            invariant
                i <= self.entries@.len(),
                forall|k: int| 0 <= k < i ==> #[trigger] self.entries@[k].0@ != name@,
            decreases self.entries.len() - i,
        {
            if str_eq(self.entries[i].0.as_str(), name) {
                return Some(i);
            }
            i = i + 1;
        }
        None
    }

    /// Registers a template under a name, replacing the one registered
    /// under that name before.
    pub fn register_template(&mut self, name: String, path: String)
        ensures
            final(self).templates() == old(self).templates().insert(name@, path@),
    {
        proof {
            use_type_invariant(&*self);
        }
        let ghost before = self.entries@;
        let ghost nv = name@;
        let ghost pv = path@;
        match self.position_of(name.as_str()) {
            Some(i) => {
                let mut entries = Vec::new();
                std::mem::swap(&mut entries, &mut self.entries);
                entries.set(i, (name, path));
                proof {
                    let after = entries@;
                    assert(after == before.update(i as int, after[i as int]));
                    assert forall|a: int, b: int| 0 <= a < b < after.len() implies #[trigger] after[a].0@
                        != #[trigger] after[b].0@ by {
                        if a != i && b != i {
                            assert(before[a].0@ != before[b].0@);
                        } else if a == i {
                            assert(before[i as int].0@ != before[b].0@);
                        } else {
                            assert(before[a].0@ != before[i as int].0@);
                        }
                    }
                    assert forall|n: Seq<char>| #[trigger] has_name(after, n) == (has_name(before, n) || n == nv) by {
                        if has_name(before, n) {
                            let k = choose|k: int| 0 <= k < before.len() && before[k].0@ == n;
                            assert(after[k].0@ == n);
                        }
                        if has_name(after, n) {
                            let k = choose|k: int| 0 <= k < after.len() && after[k].0@ == n;
                            if k != i {
                                assert(before[k].0@ == n);
                            }
                        }
                        if n == nv {
                            assert(after[i as int].0@ == n);
                        }
                    }
                    assert forall|n: Seq<char>| has_name(after, n) implies after[name_index(after, n)].1@
                        == (if n == nv { pv } else { before[name_index(before, n)].1@ }) by {
                        let k = choose|k: int| 0 <= k < after.len() && after[k].0@ == n;
                        lemma_name_index(after, n, k);
                        if k != i {
                            lemma_name_index(before, n, k);
                        }
                    }
                    assert(template_map(after) =~= template_map(before).insert(nv, pv));
                }
                self.entries = entries;
            },
            None => {
                let mut entries = Vec::new();
                std::mem::swap(&mut entries, &mut self.entries);
                entries.push((name, path));
                proof {
                    let after = entries@;
                    let last = before.len() as int;
                    assert forall|a: int, b: int| 0 <= a < b < after.len() implies #[trigger] after[a].0@
                        != #[trigger] after[b].0@ by {
                        if b == last {
                            assert(before[a].0@ != nv);
                        } else {
                            assert(before[a].0@ != before[b].0@);
                        }
                    }
                    assert forall|n: Seq<char>| #[trigger] has_name(after, n) == (has_name(before, n) || n == nv) by {
                        if has_name(before, n) {
                            let k = choose|k: int| 0 <= k < before.len() && before[k].0@ == n;
                            assert(after[k].0@ == n);
                        }
                        if has_name(after, n) {
                            let k = choose|k: int| 0 <= k < after.len() && after[k].0@ == n;
                            if k != last {
                                assert(before[k].0@ == n);
                            }
                        }
                        if n == nv {
                            assert(after[last].0@ == n);
                        }
                    }
                    assert forall|n: Seq<char>| has_name(after, n) implies after[name_index(after, n)].1@
                        == (if n == nv { pv } else { before[name_index(before, n)].1@ }) by {
                        let k = choose|k: int| 0 <= k < after.len() && after[k].0@ == n;
                        lemma_name_index(after, n, k);
                        if k != last {
                            lemma_name_index(before, n, k);
                        }
                    }
                    assert(template_map(after) =~= template_map(before).insert(nv, pv));
                }
                self.entries = entries;
            },
        }
    }

    /// The registered template names in sorted order.
    pub fn list_templates(&self) -> (r: Vec<String>)
        ensures
            strictly_sorted(views(r@)),
            forall|n: Seq<char>| views(r@).contains(n) <==> self.templates().dom().contains(n),
    {
        proof {
            use_type_invariant(self);
        }
        let mut out: Vec<String> = Vec::new();
        let mut i: usize = 0;
        while i < self.entries.len()
            invariant
                i <= self.entries@.len(),
                distinct_names(self.entries@),
                strictly_sorted(views(out@)),
                forall|n: Seq<char>| views(out@).contains(n) <==> exists|k: int| 0 <= k < i && #[trigger] self.entries@[k].0@ == n,
            decreases self.entries.len() - i,
        {
            let name = owned(self.entries[i].0.as_str());
            proof {
                if views(out@).contains(name@) {
                    let k = choose|k: int| 0 <= k < i && #[trigger] self.entries@[k].0@ == name@;
                    assert(self.entries@[k].0@ != self.entries@[i as int].0@);
                }
            }
            let ghost prev = views(out@);
            insert_sorted(&mut out, name);
            proof {
                assert forall|n: Seq<char>| views(out@).contains(n) <==> exists|k: int| 0 <= k < i + 1 && #[trigger] self.entries@[k].0@ == n by {
                    if views(out@).contains(n) && n != self.entries@[i as int].0@ {
                        assert(prev.contains(n));
                    }
                    if exists|k: int| 0 <= k < i + 1 && #[trigger] self.entries@[k].0@ == n {
                        let k = choose|k: int| 0 <= k < i + 1 && #[trigger] self.entries@[k].0@ == n;
                        if k < i {
                            assert(prev.contains(n));
                        }
                    }
                }
            }
            i = i + 1;
        }
        out
    }

    /// The image path of a registered template; for an unknown name, the
    /// error lists the registered names in sorted order.
    pub fn get_template_path(&self, name: &str) -> (r: Result<String, Error>)
        ensures
            self.templates().dom().contains(name@) ==> (r matches Ok(p) && p@ == self.templates()[name@]),
            !self.templates().dom().contains(name@) ==> (r matches Err(Error::Backend(m)) && exists|s: Seq<Seq<char>>|
                strictly_sorted(s) && (forall|n: Seq<char>| s.contains(n) <==> self.templates().dom().contains(n))
                && m@ == "Template '"@ + name@ + "' not registered. Available templates: "@ + string_list_debug(s)),
    {
        proof {
            use_type_invariant(self);
        }
        match self.position_of(name) {
            Some(i) => {
                proof {
                    lemma_name_index(self.entries@, name@, i as int);
                }
                Ok(self.entries[i].1.clone())
            },
            None => {
                let names = self.list_templates();
                let listed = debug_string_list(names.as_slice());
                let mut m = owned("Template '");
                push_str(&mut m, name);
                push_str(&mut m, "' not registered. Available templates: ");
                push_str(&mut m, listed.as_str());
                proof {
                    assert(strictly_sorted(views(names@)));
                }
                Err(Error::Backend(m))
            },
        }
    }

    /// Registers each `.qcow2` file among a directory's regular files under
    /// its stem, with its path in that directory; returns how many there
    /// were.
    pub fn discover_templates(&mut self, dir: &str, file_names: &[String]) -> (r: usize)
        ensures
            final(self).templates() == discovered(old(self).templates(), dir@, views(file_names@)),
            r == qcow2_count(views(file_names@)),
    {
        let mut count: usize = 0;
        let mut i: usize = 0;
        let ghost start = self.templates();
        while i < file_names.len()
            invariant
                i <= file_names@.len(),
                self.templates() == discovered(start, dir@, views(file_names@.take(i as int))),
                count == qcow2_count(views(file_names@.take(i as int))),
                count <= i,
            decreases file_names.len() - i,
        {
            proof {
                assert(views(file_names@.take(i + 1)) =~= views(file_names@.take(i as int)).push(file_names@[i as int]@));
                assert(views(file_names@.take(i + 1)).drop_last() =~= views(file_names@.take(i as int)));
            }
            match template_name_from_file(file_names[i].as_str()) {
                Some(n) => {
                    let path = join_path(dir, file_names[i].as_str());
                    self.register_template(n, path);
                    count = count + 1;
                },
                None => {},
            }
            i = i + 1;
        }
        proof {
            assert(file_names@.take(file_names@.len() as int) =~= file_names@);
        }
        count
    }
}

/// The templates after registering the `.qcow2` files among `files`, in
/// order, with their paths in `dir`.
pub open spec fn discovered(m: Map<Seq<char>, Seq<char>>, dir: Seq<char>, files: Seq<Seq<char>>) -> Map<
    Seq<char>,
    Seq<char>,
>
    decreases files.len(),
{
    if files.len() == 0 {
        m
    } else {
        let before = discovered(m, dir, files.drop_last());
        match template_name_of(files.last()) {
            Some(n) => before.insert(n, path_join(dir, files.last())),
            None => before,
        }
    }
}

/// How many of the files are `.qcow2` templates.
pub open spec fn qcow2_count(files: Seq<Seq<char>>) -> nat
    decreases files.len(),
{
    if files.len() == 0 {
        0
    } else {
        qcow2_count(files.drop_last()) + if template_name_of(files.last()) is Some { 1nat } else { 0 }
    }
}

/// The error when no template directory is configured.
pub fn no_template_dir_error() -> (r: Error)
    ensures
        r matches Error::Backend(m) && m@ == "No template directory configured. Set BENCHSCALE_TEMPLATE_DIR or ensure agentReagents is in a standard location."@,
{
    Error::Backend(owned("No template directory configured. Set BENCHSCALE_TEMPLATE_DIR or ensure agentReagents is in a standard location."))
}

/// What registering a template does to the registry: the name now leads
/// to the path it was registered with, and every other name keeps what it
/// had.
pub proof fn law_register_then_get(
    before: Map<Seq<char>, Seq<char>>,
    after: Map<Seq<char>, Seq<char>>,
    name: Seq<char>,
    path: Seq<char>,
    other: Seq<char>,
)
    requires
        after == before.insert(name, path),
    ensures
        after.dom().contains(name),
        after[name] == path,
        other != name ==> (after.dom().contains(other) == before.dom().contains(other)),
        other != name && before.dom().contains(other) ==> after[other] == before[other],
{
}

} // verus!
