//! Generated files, the template sources generators fill in, and the
//! arguments they are run with.

use vstd::prelude::*;
use crate::text::str_eq;

verus! {

/// A file emitted by an auth generator.
#[derive(Debug, Clone, PartialEq, Eq)]
pub struct GeneratedFile {
    pub path: String,
    pub content: String,
}

impl View for GeneratedFile {
    type V = (Seq<char>, Seq<char>);

    open spec fn view(&self) -> (Seq<char>, Seq<char>) {
        (self.path@, self.content@)
    }
}

/// The paths and contents of generated files.
pub open spec fn file_views(v: Seq<GeneratedFile>) -> Seq<(Seq<char>, Seq<char>)> {
    v.map_values(|f: GeneratedFile| f@)
}

/// Index of the first file at `path`, or -1.
pub open spec fn index_of_path(files: Seq<(Seq<char>, Seq<char>)>, path: Seq<char>, k: int) -> int
    decreases files.len() - k,
{
    if k < 0 || k >= files.len() {
        -1
    } else if files[k].0 == path {
        k
    } else {
        index_of_path(files, path, k + 1)
    }
}

/// `files` with `file` replacing the first file at its path, or appended.
pub open spec fn upsert(files: Seq<(Seq<char>, Seq<char>)>, file: (Seq<char>, Seq<char>)) -> Seq<(Seq<char>, Seq<char>)> {
    let i = index_of_path(files, file.0, 0);
    if i >= 0 {
        files.update(i, file)
    } else {
        files.push(file)
    }
}

proof fn lemma_index_of_path_bounds(files: Seq<(Seq<char>, Seq<char>)>, path: Seq<char>, k: int)
    ensures
        index_of_path(files, path, k) == -1 || (k <= index_of_path(files, path, k) < files.len()),
    decreases files.len() - k,
{
    if 0 <= k < files.len() && files[k].0 != path {
        lemma_index_of_path_bounds(files, path, k + 1);
    }
}

/// Index of the first file at `path`.
pub fn find_file(files: &Vec<GeneratedFile>, path: &str) -> (r: Option<usize>)
    ensures
        match r {
            Some(i) => index_of_path(file_views(files@), path@, 0) == i as int,
            None => index_of_path(file_views(files@), path@, 0) == -1,
        },
{
    let ghost fv = file_views(files@);
    let mut i: usize = 0;
    while i < files.len()
        invariant
            i <= files@.len(),
            fv == file_views(files@),
            index_of_path(fv, path@, 0) == index_of_path(fv, path@, i as int),
        decreases files.len() - i,
    {
        assert(fv[i as int].0 == files@[i as int].path@);
        if str_eq(files[i].path.as_str(), path) {
            return Some(i);
        }
        i += 1;
    }
    None
}

/// Replaces the file at `file`'s path, or appends it.
pub fn upsert_file(files: &mut Vec<GeneratedFile>, file: GeneratedFile)
    ensures
        file_views(final(files)@) == upsert(file_views(old(files)@), file@),
{
    let ghost before = file_views(files@);
    let ghost fv = file@;
    proof {
        lemma_index_of_path_bounds(before, file@.0, 0);
    }
    match find_file(files, file.path.as_str()) {
        Some(i) => {
            files.set(i, file);
            assert(file_views(files@) =~= before.update(i as int, fv));
        },
        None => {
            files.push(file);
            assert(file_views(files@) =~= before.push(fv));
        },
    }
}

/// The template sources generators fill in, by name.
pub struct TemplateSet {
    entries: Vec<(String, String)>,
}

/// The name and source of each template.
pub open spec fn entry_views(v: Seq<(String, String)>) -> Seq<(Seq<char>, Seq<char>)> {
    v.map_values(|e: (String, String)| (e.0@, e.1@))
}

/// The source of template `name` among `entries` (the first entry wins).
pub open spec fn template_in(entries: Seq<(Seq<char>, Seq<char>)>, name: Seq<char>) -> Option<Seq<char>>
    decreases entries.len(),
{
    if entries.len() == 0 {
        None
    } else if entries[0].0 == name {
        Some(entries[0].1)
    } else {
        template_in(entries.drop_first(), name)
    }
}

impl TemplateSet {
    /// The templates, in insertion order.
    pub closed spec fn entries(&self) -> Seq<(Seq<char>, Seq<char>)> {
        entry_views(self.entries@)
    }

    /// The source of template `name`, if present.
    pub open spec fn source(&self, name: Seq<char>) -> Option<Seq<char>> {
        template_in(self.entries(), name)
    }

    /// Whether template `name` is present.
    pub open spec fn has(&self, name: Seq<char>) -> bool {
        self.source(name) is Some
    }

    /// An empty set.
    pub fn new() -> (r: Self)
        ensures
            r.entries() == Seq::<(Seq<char>, Seq<char>)>::empty(),
    {
        let r = TemplateSet { entries: Vec::new() };
        assert(r.entries() =~= Seq::<(Seq<char>, Seq<char>)>::empty());
        r
    }

    /// Adds template `name` (an earlier entry of that name keeps priority).
    pub fn insert(&mut self, name: String, source: String)
        ensures
            final(self).entries() == old(self).entries().push((name@, source@)),
    {
        self.entries.push((name, source));
        assert(self.entries() =~= old(self).entries().push((name@, source@)));
    }

    /// The source of template `name`.
    pub fn get(&self, name: &str) -> (r: Option<&String>)
        ensures
            match r {
                Some(s) => self.source(name@) == Some(s@),
                None => self.source(name@) is None,
            },
    {
        let ghost es = self.entries();
        let mut i: usize = 0;
        assert(es.skip(0) =~= es);
        while i < self.entries.len()
            invariant
                i <= self.entries@.len(),
                es == self.entries(),
                template_in(es, name@) == template_in(es.skip(i as int), name@),
            decreases self.entries.len() - i,
        {
            let ghost rest = es.skip(i as int);
            assert(rest[0] == (self.entries@[i as int].0@, self.entries@[i as int].1@));
            assert(rest.drop_first() =~= es.skip(i + 1));
            if str_eq(self.entries[i].0.as_str(), name) {
                return Some(&self.entries[i].1);
            }
            i += 1;
        }
        None
    }
}

/// Whether `args` holds the flag `flag`.
pub open spec fn has_arg(args: Seq<&str>, flag: Seq<char>) -> bool {
    exists|i: int| 0 <= i < args.len() && (#[trigger] args[i])@ == flag
}

/// `args.contains(&flag)`.
pub fn has_flag(args: &[&str], flag: &str) -> (r: bool)
    ensures
        r == has_arg(args@, flag@),
{
    let mut i: usize = 0;
    while i < args.len()
        invariant
            i <= args@.len(),
            forall|k: int| 0 <= k < i ==> (#[trigger] args@[k])@ != flag@,
        decreases args@.len() - i,
    {
        if str_eq(args[i], flag) {
            assert(args@[i as int]@ == flag@);
            return true;
        }
        i += 1;
    }
    false
}

/// The arguments that are not `--` flags, in order.
pub open spec fn positional(args: Seq<&str>) -> Seq<&str> {
    args.filter(|a: &str| !crate::text::starts_with(a@, "--"@))
}

/// The positional arguments (those not starting with `--`).
pub fn positional_args<'a>(args: &[&'a str]) -> (r: Vec<&'a str>)
    ensures
        r@ == positional(args@),
{
    let ghost pred = |a: &str| !crate::text::starts_with(a@, "--"@);
    let mut out: Vec<&'a str> = Vec::new();
    let mut i: usize = 0;
    while i < args.len()
        invariant
            i <= args@.len(),
            pred == (|a: &str| !crate::text::starts_with(a@, "--"@)),
            out@ == args@.take(i as int).filter(pred),
        decreases args@.len() - i,
    {
        proof {
            reveal_with_fuel(Seq::<_>::filter, 1);
            assert(args@.take(i + 1).drop_last() =~= args@.take(i as int));
        }
        let a = args[i];
        let cs = crate::text::chars_of(a);
        if !crate::text::starts_with_str(&cs, "--") {
            out.push(a);
        }
        i += 1;
    }
    assert(args@.take(args@.len() as int) =~= args@);
    out
}

} // verus!
