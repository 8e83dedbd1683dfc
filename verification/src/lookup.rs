//! Association lists keyed by name: the tables of a module and of a program.
//!
//! A table is a sequence of `(key, value)` pairs in declaration order. A
//! key is looked up from the front, so an earlier entry hides a later one
//! of the same key.
use vstd::prelude::*;

verus! {

/// The position of the first entry of `table` whose key is `key`.
pub open spec fn lookup_index<K, V>(table: Seq<(K, V)>, key: K) -> Option<int>
    decreases table.len(),
{
    if table.len() == 0 {
        None
    } else if table[0].0 == key {
        Some(0)
    } else {
        match lookup_index(table.skip(1), key) {
            Some(i) => Some(i + 1),
            None => None,
        }
    }
}

/// The value of the first entry of `table` whose key is `key`.
pub open spec fn lookup<K, V>(table: Seq<(K, V)>, key: K) -> Option<V> {
    match lookup_index(table, key) {
        Some(i) => Some(table[i].1),
        None => None,
    }
}

/// `i` is the first position of `key` in `table`.
pub open spec fn is_first_entry<K, V>(table: Seq<(K, V)>, key: K, i: int) -> bool {
    &&& 0 <= i < table.len()
    &&& table[i].0 == key
    &&& forall|j: int| 0 <= j < i ==> (#[trigger] table[j]).0 != key
}

/// `lookup_index` finds the first entry of the key, and fails only where
/// no entry has it.
pub proof fn lemma_lookup_index<K, V>(table: Seq<(K, V)>, key: K)
    ensures
        match lookup_index(table, key) {
            Some(i) => is_first_entry(table, key, i),
            None => forall|j: int| 0 <= j < table.len() ==> (#[trigger] table[j]).0 != key,
        },
    decreases table.len(),
{
    if table.len() > 0 && table[0].0 != key {
        let rest = table.skip(1);
        lemma_lookup_index(rest, key);
        match lookup_index(rest, key) {
            Some(i) => {
                assert forall|j: int| 0 <= j < i + 1 implies (#[trigger] table[j]).0 != key by {
                    if j > 0 {
                        assert(rest[j - 1] == table[j]);
                    }
                }
            },
            None => {
                assert forall|j: int| 0 <= j < table.len() implies (#[trigger] table[j]).0
                    != key by {
                    if j > 0 {
                        assert(rest[j - 1] == table[j]);
                    }
                }
            },
        }
    }
}

/// The first entry of a key is the one that `lookup_index` returns.
pub proof fn lemma_first_entry_is_lookup<K, V>(table: Seq<(K, V)>, key: K, i: int)
    requires
        is_first_entry(table, key, i),
    ensures
        lookup_index(table, key) == Some(i),
{
    lemma_lookup_index(table, key);
    match lookup_index(table, key) {
        Some(k) => {
            if k < i {
                assert(table[k].0 != key);
            } else if i < k {
                assert(table[i].0 != key);
            }
        },
        None => {
            assert(table[i].0 != key);
        },
    }
}

/// Finds the first entry of `key` in `table`.
pub fn find_index<T: DeepView>(table: &Vec<(String, T)>, key: &String) -> (r: Option<usize>)
    ensures
        match r {
            Some(i) => i < table.len() && table[i as int].0@ == key@ && lookup_index(
                table.deep_view(),
                key@,
            ) == Some(i as int),
            None => lookup_index(table.deep_view(), key@) is None,
        },
{
    let mut i: usize = 0;
    while i < table.len()
        invariant
            i <= table.len(),
            forall|j: int| 0 <= j < i ==> (#[trigger] table.deep_view()[j]).0 != key@,
        decreases table.len() - i,
    {
        if table[i].0 == *key {
            proof {
                assert(table.deep_view()[i as int].0 == key@);
                lemma_first_entry_is_lookup(table.deep_view(), key@, i as int);
            }
            return Some(i);
        }
        assert(table.deep_view()[i as int].0 != key@);
        i += 1;
    }
    proof {
        lemma_lookup_index(table.deep_view(), key@);
    }
    None
}

/// The value of the last entry of `table` whose key is `key`: in a scope
/// that grows at its end, the innermost binding.
pub open spec fn lookup_last<K, V>(table: Seq<(K, V)>, key: K) -> Option<V>
    decreases table.len(),
{
    if table.len() == 0 {
        None
    } else if table.last().0 == key {
        Some(table.last().1)
    } else {
        lookup_last(table.drop_last(), key)
    }
}

/// Finds the last entry of `key` in `table`.
pub fn find_last<'a>(table: &'a Vec<(String, String)>, key: &String) -> (r: Option<&'a String>)
    ensures
        match r {
            Some(v) => lookup_last(table.deep_view(), key@) == Some(v@),
            None => lookup_last(table.deep_view(), key@) is None,
        },
{
    let mut i: usize = table.len();
    assert(table.deep_view().take(i as int) =~= table.deep_view());
    while i > 0
        invariant
            i <= table.len(),
            lookup_last(table.deep_view(), key@) == lookup_last(
                table.deep_view().take(i as int),
                key@,
            ),
        decreases i,
    {
        i -= 1;
        proof {
            let prefix = table.deep_view().take(i + 1);
            assert(prefix.last() == table.deep_view()[i as int]);
            assert(prefix.drop_last() =~= table.deep_view().take(i as int));
        }
        if table[i].0 == *key {
            return Some(&table[i].1);
        }
    }
    None
}

/// Whether two lists of names hold the same names in the same order.
pub fn names_eq(a: &Vec<String>, b: &Vec<String>) -> (r: bool)
    ensures
        r == (a.deep_view() == b.deep_view()),
{
    if a.len() != b.len() {
        assert(a.deep_view().len() != b.deep_view().len());
        return false;
    }
    let mut i: usize = 0;
    while i < a.len()
        invariant
            i <= a.len(),
            a.len() == b.len(),
            forall|j: int| 0 <= j < i ==> a.deep_view()[j] == b.deep_view()[j],
        decreases a.len() - i,
    {
        if a[i] != b[i] {
            assert(a.deep_view()[i as int] != b.deep_view()[i as int]);
            return false;
        }
        i += 1;
    }
    assert(a.deep_view() =~= b.deep_view());
    true
}

/// A list of names as a table.
pub open spec fn name_table(names: Seq<Seq<char>>) -> Seq<(Seq<char>, int)> {
    Seq::new(names.len(), |i: int| (names[i], i))
}

/// The first position of `name` in `names`.
pub open spec fn name_position(names: Seq<Seq<char>>, name: Seq<char>) -> Option<int> {
    lookup_index(name_table(names), name)
}

/// Finds the first position of `name` in `names`.
pub fn find_name(names: &Vec<String>, name: &str) -> (r: Option<usize>)
    ensures
        match r {
            Some(i) => i < names.len() && name_position(names.deep_view(), name@) == Some(
                i as int,
            ),
            None => name_position(names.deep_view(), name@) is None,
        },
{
    let ghost table = name_table(names.deep_view());
    let mut i: usize = 0;
    while i < names.len()
        invariant
            i <= names.len(),
            table == name_table(names.deep_view()),
            forall|j: int| 0 <= j < i ==> (#[trigger] table[j]).0 != name@,
        decreases names.len() - i,
    {
        if crate::text::str_eq(names[i].as_str(), name) {
            proof {
                assert(table[i as int].0 == name@);
                lemma_first_entry_is_lookup(table, name@, i as int);
            }
            return Some(i);
        }
        assert(table[i as int].0 != name@);
        i += 1;
    }
    proof {
        lemma_lookup_index(table, name@);
    }
    None
}

/// What the queue of files to read holds after the first `n` of the
/// imports of a file that was read are looked at: an import is added at
/// the end unless its file is read already or waits in the queue.
pub open spec fn queued(
    files: Seq<Seq<char>>,
    queue: Seq<Seq<char>>,
    imports: Seq<Seq<char>>,
    n: nat,
) -> Seq<Seq<char>>
    decreases n,
{
    if n == 0 || n > imports.len() {
        queue
    } else {
        let before = queued(files, queue, imports, (n - 1) as nat);
        if name_position(files, imports[n - 1]) is None && name_position(before, imports[n - 1])
            is None {
            before.push(imports[n - 1])
        } else {
            before
        }
    }
}

/// Adds the imports of a file that was read to the queue of files to
/// read: each that is neither among the files read, `files`, nor in the
/// queue yet.
pub fn queue_imports(files: &Vec<String>, import_queue: &mut Vec<String>, imports: &Vec<String>)
    ensures
        final(import_queue).deep_view() == queued(
            files.deep_view(),
            old(import_queue).deep_view(),
            imports.deep_view(),
            imports.deep_view().len(),
        ),
{
    let mut i: usize = 0;
    while i < imports.len()
        invariant
            i <= imports.len(),
            import_queue.deep_view() == queued(
                files.deep_view(),
                old(import_queue).deep_view(),
                imports.deep_view(),
                i as nat,
            ),
        decreases imports.len() - i,
    {
        let imp = &imports[i];
        assert(imports.deep_view()[i as int] == imp@);
        if find_name(files, imp.as_str()).is_none() && find_name(import_queue, imp.as_str()).is_none() {
            let ghost before = import_queue.deep_view();
            import_queue.push(imp.clone());
            assert(import_queue.deep_view() =~= before.push(imp@));
        }
        i += 1;
    }
}

} // verus!
