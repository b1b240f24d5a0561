//! Logical names of artifacts, and the host paths that the packer uses.
use vstd::prelude::*;
use vstd::string::*;
use crate::fault::PackFault;

verus! {

/// Whether the first `.` of `name` stands at index `i`.
pub open spec fn dot_at(name: Seq<char>, i: int) -> bool {
    &&& 0 <= i < name.len()
    &&& name[i] == '.'
    &&& forall|j: int| 0 <= j < i ==> name[j] != '.'
}

/// Whether `name` has a `.` in it.
pub open spec fn has_dot(name: Seq<char>) -> bool {
    exists|i: int| dot_at(name, i)
}

/// The logical name that the entry name `name` stands for: what comes
/// before its first `.`. It means something only where `name` has a `.`.
pub open spec fn stem(name: Seq<char>) -> Seq<char>
    recommends
        has_dot(name),
{
    name.subrange(0, choose|i: int| dot_at(name, i))
}

/// The first `.` is where it is found: an index that holds a `.` with none
/// before it fixes the logical name.
pub proof fn lemma_stem_at(name: Seq<char>, i: int)
    requires
        dot_at(name, i),
    ensures
        has_dot(name),
        stem(name) == name.subrange(0, i),
{
    let k = choose|k: int| dot_at(name, k);
    assert(k == i) by {
        if k < i {
            assert(name[k] != '.');
        } else if i < k {
            assert(name[i] != '.');
        }
    }
}

/// A logical name holds no `.`, is shorter than the entry name, and the
/// entry name goes on with a `.` right after it.
pub proof fn lemma_stem_is_dot_free_prefix(name: Seq<char>)
    requires
        has_dot(name),
    ensures
        stem(name).len() < name.len(),
        name[stem(name).len() as int] == '.',
        stem(name) == name.subrange(0, stem(name).len() as int),
        forall|j: int| 0 <= j < stem(name).len() ==> stem(name)[j] != '.',
{
    let k = choose|k: int| dot_at(name, k);
    assert(dot_at(name, k));
}

/// A name without a `.` has none at any index.
pub proof fn lemma_no_dot(name: Seq<char>)
    requires
        forall|j: int| 0 <= j < name.len() ==> name[j] != '.',
    ensures
        !has_dot(name),
{
    if has_dot(name) {
        let k = choose|k: int| dot_at(name, k);
        assert(name[k] == '.');
    }
}

/// The logical name of a source entry: its name cut at the first `.`.
/// `None` where the name has no `.`.
pub fn logical_name(entry: &str) -> (name: Option<String>)
    ensures
        name is Some <==> has_dot(entry@),
        name matches Some(n) ==> n@ == stem(entry@),
{
    let len = entry.unicode_len();
    let mut i: usize = 0;
    for c in it: entry.chars()
        invariant
            i == it.index(),
            it.seq() == entry@,
            len == entry@.len(),
            forall|j: int| 0 <= j < i ==> entry@[j] != '.',
    {
        if c == '.' {
            proof {
                lemma_stem_at(entry@, i as int);
            }
            return Some(entry.substring_char(0, i).to_owned());
        }
        i += 1;
    }
    proof {
        lemma_no_dot(entry@);
    }
    None
}

/// The path of the image file: `fs.img` under the target directory, which
/// is written with its trailing separator.
pub fn image_path(target: &str) -> (path: String)
    ensures
        path@ == target@ + "fs.img"@,
{
    String::from_str(target).concat("fs.img")
}

/// The path of the artifact that the logical name `name` stands for: the
/// file of that very name under the target directory.
pub fn artifact_path(target: &str, name: &str) -> (path: String)
    ensures
        path@ == target@ + name@,
{
    String::from_str(target).concat(name)
}

/// Whether a source entry yields a logical name: its name is text and has
/// a `.` in it.
pub open spec fn entry_ok(entry: Option<Seq<char>>) -> bool {
    entry matches Some(name) && has_dot(name)
}

/// The fault that the source entry at index `k` stands for if it yields no
/// logical name.
pub open spec fn entry_fault(entry: Option<Seq<char>>, k: int) -> PackFault {
    if entry is None {
        PackFault::InvalidName { entry: k as usize }
    } else {
        PackFault::MissingExtension { entry: k as usize }
    }
}

/// Whether the entry at index `k` is the first that yields no logical name.
pub open spec fn first_bad(entries: Seq<Option<Seq<char>>>, k: int) -> bool {
    &&& 0 <= k < entries.len()
    &&& !entry_ok(entries[k])
    &&& forall|j: int| 0 <= j < k ==> entry_ok(#[trigger] entries[j])
}

/// The logical names of a listing, in the order of the listing, or the
/// fault of the first entry that yields none.
pub open spec fn derived(entries: Seq<Option<Seq<char>>>) -> Result<Seq<Seq<char>>, PackFault> {
    if exists|k: int| first_bad(entries, k) {
        let k = choose|k: int| first_bad(entries, k);
        Err(entry_fault(entries[k], k))
    } else {
        Ok(Seq::new(entries.len(), |i: int| stem(entries[i]->0)))
    }
}

/// The first entry that yields no name is where it is found.
pub proof fn lemma_first_bad_at(entries: Seq<Option<Seq<char>>>, k: int)
    requires
        first_bad(entries, k),
    ensures
        derived(entries) == Err::<Seq<Seq<char>>, PackFault>(entry_fault(entries[k], k)),
{
    let c = choose|c: int| first_bad(entries, c);
    assert(c == k) by {
        if c < k {
            assert(entry_ok(entries[c]));
        } else if k < c {
            assert(entry_ok(entries[k]));
        }
    }
}

/// A listing yields its names exactly when every entry yields one.
pub proof fn lemma_derived_ok(entries: Seq<Option<Seq<char>>>)
    ensures
        derived(entries) is Ok <==> forall|i: int|
            0 <= i < entries.len() ==> entry_ok(#[trigger] entries[i]),
        derived(entries) matches Ok(names) ==> names.len() == entries.len(),
{
    if exists|k: int| first_bad(entries, k) {
        let k = choose|k: int| first_bad(entries, k);
        assert(!entry_ok(entries[k]));
    } else {
        if !(forall|i: int| 0 <= i < entries.len() ==> entry_ok(#[trigger] entries[i])) {
            lemma_some_bad_has_first(entries, entries.len() as int);
        }
    }
}

/// Among the first `n` entries, if one yields no name then one is the
/// first to do so.
proof fn lemma_some_bad_has_first(entries: Seq<Option<Seq<char>>>, n: int)
    requires
        0 <= n <= entries.len(),
        exists|i: int| 0 <= i < n && !entry_ok(#[trigger] entries[i]),
    ensures
        exists|k: int| first_bad(entries, k),
    decreases n,
{
    if exists|i: int| 0 <= i < n - 1 && !entry_ok(#[trigger] entries[i]) {
        lemma_some_bad_has_first(entries, n - 1);
    } else {
        assert(first_bad(entries, n - 1));
    }
}

/// The logical names of the entries of a source directory, in the order of
/// the listing. An entry is `None` where its name is not text. The first
/// entry that yields no name decides the fault; nothing is derived past it.
pub fn derive_names(entries: &Vec<Option<String>>) -> (r: Result<Vec<String>, PackFault>)
    ensures
        match r {
            Ok(names) => derived(entries.deep_view()) == Ok::<Seq<Seq<char>>, PackFault>(
                names.deep_view(),
            ),
            Err(fault) => derived(entries.deep_view()) == Err::<Seq<Seq<char>>, PackFault>(fault),
        },
{
    let mut names: Vec<String> = Vec::new();
    let mut i: usize = 0;
    while i < entries.len()
        invariant
            i <= entries.len(),
            names.len() == i,
            forall|j: int| 0 <= j < i ==> entry_ok(#[trigger] entries.deep_view()[j]),
            forall|j: int| 0 <= j < i ==> names[j]@ == stem(entries.deep_view()[j]->0),
        decreases entries.len() - i,
    {
        let found = match &entries[i] {
            Some(entry) => logical_name(entry.as_str()),
            None => None,
        };
        match found {
            Some(name) => {
                names.push(name);
            },
            None => {
                proof {
                    assert(first_bad(entries.deep_view(), i as int));
                    lemma_first_bad_at(entries.deep_view(), i as int);
                }
                if entries[i].is_none() {
                    return Err(PackFault::InvalidName { entry: i });
                } else {
                    return Err(PackFault::MissingExtension { entry: i });
                }
            },
        }
        i += 1;
    }
    proof {
        let all = entries.deep_view();
        assert(!(exists|k: int| first_bad(all, k))) by {
            if exists|k: int| first_bad(all, k) {
                let k = choose|k: int| first_bad(all, k);
                assert(entry_ok(all[k]));
            }
        }
        assert(names.deep_view() =~= Seq::new(all.len(), |i: int| stem(all[i]->0)));
    }
    Ok(names)
}

} // verus!
