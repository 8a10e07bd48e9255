//! Up-to-date markers of build tasks.
//!
//! A build task is identified by a kind and an id and described by a hash input. After a
//! run of the task a marker file records the hash of the input and whether the run
//! succeeded; the task is up to date while the recorded hash equals the current one and
//! the recorded run succeeded.

use crate::text::{
    chars_equal, chars_less, chars_lt, chars_of, join, joined, lemma_chars_lt_total,
    lemma_chars_lt_transitive, strings_view,
};
use vstd::utf8::encode_utf8;
use vstd::prelude::*;

verus! {

/// The BLAKE3 hash of `data`, in lowercase hexadecimal.
pub uninterp spec fn blake3_hex(data: Seq<u8>) -> Seq<char>;

/// A lowercase hexadecimal digit.
pub open spec fn is_lower_hex_digit(c: char) -> bool {
    ('0' <= c && c <= '9') || ('a' <= c && c <= 'f')
}

/// Calls `blake3::hash(data).to_hex()` of the `blake3` crate. The result is tied to the
/// input by `blake3_hex`; as the crate's `to_hex` shows, it has 64 lowercase hex digits.
#[verifier::external_body]
fn blake3_hex_exec(data: &[u8]) -> (res: String)
    ensures
        res@ == blake3_hex(data@),
        res@.len() == 64,
        forall|i: int| 0 <= i < res@.len() ==> is_lower_hex_digit(#[trigger] res@[i]),
{
    blake3::hash(data).to_hex().to_string()
}

/// The hash of a task: over the UTF-8 bytes of its kind followed by those of its input.
pub open spec fn task_hash(kind: Seq<char>, input: Seq<char>) -> Seq<char> {
    blake3_hex(encode_utf8(kind) + encode_utf8(input))
}

fn hash_of(kind: &str, input: &str) -> (res: String)
    ensures
        res@ == task_hash(kind@, input@),
        res@.len() == 64,
{
    let mut bytes: Vec<u8> = Vec::new();
    let kb = kind.as_bytes();
    let ib = input.as_bytes();
    let mut i: usize = 0;
    while i < kb.len()
        invariant
            i <= kb.len(),
            bytes@ == kb@.take(i as int),
        decreases kb.len() - i,
    {
        bytes.push(kb[i]);
        assert(bytes@ =~= kb@.take(i + 1));
        i = i + 1;
    }
    let mut j: usize = 0;
    while j < ib.len()
        invariant
            i == kb.len(),
            j <= ib.len(),
            bytes@ == kb@ + ib@.take(j as int),
        decreases ib.len() - j,
    {
        bytes.push(ib[j]);
        assert(bytes@ =~= kb@ + ib@.take(j + 1));
        j = j + 1;
    }
    assert(kb@.take(kb.len() as int) =~= kb@);
    assert(ib@.take(ib.len() as int) =~= ib@);
    blake3_hex_exec(bytes.as_slice())
}

/// What a task contributes to its marker.
pub trait TaskResultMarkerHashInput {
    /// The kind of the task.
    spec fn spec_kind() -> Seq<char>;

    /// What the task's result depends on, or why that cannot be told.
    spec fn spec_hash_input(&self) -> Result<Seq<char>, Seq<char>>;

    /// The task's identity; where `None`, the hash input identifies it. The id leaves out
    /// the properties of the task, so that changing them does not make it look up to date.
    spec fn spec_id(&self) -> Result<Option<Seq<char>>, Seq<char>>;

    /// The kind of the task.
    fn kind() -> (res: &'static str)
        ensures
            res@ == Self::spec_kind(),
    ;

    /// What the task's result depends on.
    fn hash_input(&self) -> (res: Result<String, String>)
        ensures
            match res {
                Ok(h) => self.spec_hash_input() == Ok::<Seq<char>, Seq<char>>(h@),
                Err(e) => self.spec_hash_input() == Err::<Seq<char>, Seq<char>>(e@),
            },
    ;

    /// The task's identity.
    fn id(&self) -> (res: Result<Option<String>, String>)
        ensures
            match res {
                Ok(Some(i)) => self.spec_id() == Ok::<Option<Seq<char>>, Seq<char>>(Some(i@)),
                Ok(None) => self.spec_id() == Ok::<Option<Seq<char>>, Seq<char>>(None),
                Err(e) => self.spec_id() == Err::<Option<Seq<char>>, Seq<char>>(e@),
            },
    ;
}

/// The record of a task run, as stored in the marker file.
#[derive(Debug)]
pub struct TaskResult {
    pub kind: Option<String>,
    pub id: Option<String>,
    pub hash_input: Option<String>,
    pub hash_hex: String,
    pub success: bool,
}

/// A generator step of a component.
pub struct ComponentGeneratorMarkerHash {
    pub component_name: String,
    pub generator_kind: String,
}

impl TaskResultMarkerHashInput for ComponentGeneratorMarkerHash {
    open spec fn spec_kind() -> Seq<char> {
        "ComponentGeneratorMarkerHash"@
    }

    open spec fn spec_hash_input(&self) -> Result<Seq<char>, Seq<char>> {
        Ok(self.component_name@ + "-"@ + self.generator_kind@)
    }

    open spec fn spec_id(&self) -> Result<Option<Seq<char>>, Seq<char>> {
        Ok(None)
    }

    fn kind() -> (res: &'static str) {
        "ComponentGeneratorMarkerHash"
    }

    fn hash_input(&self) -> (res: Result<String, String>) {
        let mut s = self.component_name.clone();
        s.append("-");
        s.append(self.generator_kind.as_str());
        Ok(s)
    }

    fn id(&self) -> (res: Result<Option<String>, String>) {
        Ok(None)
    }
}

/// The kind of a dependency between components.
#[derive(PartialEq, Eq, Structural, Clone, Copy, Debug)]
pub enum DependencyType {
    /// Wasm RPC linked dynamically.
    DynamicWasmRpc,
    /// Wasm RPC linked statically.
    StaticWasmRpc,
    /// A plain WASM library.
    Wasm,
}

/// The name of a dependency type.
pub open spec fn dependency_type_name(t: DependencyType) -> Seq<char> {
    match t {
        DependencyType::DynamicWasmRpc => "wasm-rpc"@,
        DependencyType::StaticWasmRpc => "static-wasm-rpc"@,
        DependencyType::Wasm => "wasm"@,
    }
}

impl DependencyType {
    /// The name of this dependency type.
    pub fn as_str(&self) -> (res: &'static str)
        ensures
            res@ == dependency_type_name(*self),
    {
        match self {
            DependencyType::DynamicWasmRpc => "wasm-rpc",
            DependencyType::StaticWasmRpc => "static-wasm-rpc",
            DependencyType::Wasm => "wasm",
        }
    }
}

/// A component that another depends on, with the kind of the dependency.
pub struct DependentComponent {
    pub name: String,
    pub dep_type: DependencyType,
}

/// The position of a dependency type in the order of dependency types.
pub open spec fn dependency_type_rank(t: DependencyType) -> int {
    match t {
        DependencyType::DynamicWasmRpc => 0,
        DependencyType::StaticWasmRpc => 1,
        DependencyType::Wasm => 2,
    }
}

fn dependency_type_rank_exec(t: DependencyType) -> (res: u8)
    ensures
        res == dependency_type_rank(t),
{
    match t {
        DependencyType::DynamicWasmRpc => 0,
        DependencyType::StaticWasmRpc => 1,
        DependencyType::Wasm => 2,
    }
}

/// What identifies a dependency: the component's name and the dependency type.
pub open spec fn dependency_key(d: DependentComponent) -> (Seq<char>, DependencyType) {
    (d.name@, d.dep_type)
}

/// The keys of the dependencies, in order.
pub open spec fn dependency_keys(deps: Seq<DependentComponent>) -> Seq<(Seq<char>, DependencyType)> {
    deps.map_values(|d: DependentComponent| dependency_key(d))
}

/// The order of dependencies: by the component's name, then by the dependency type.
pub open spec fn dependency_lt(a: (Seq<char>, DependencyType), b: (Seq<char>, DependencyType)) -> bool {
    chars_lt(a.0, b.0) || (a.0 == b.0 && dependency_type_rank(a.1) < dependency_type_rank(b.1))
}

/// The dependencies are in strictly increasing order, as in an ordered set.
pub open spec fn dependencies_in_order(deps: Seq<DependentComponent>) -> bool {
    forall|i: int, j: int|
        0 <= i < j < deps.len() ==> dependency_lt(
            #[trigger] dependency_key(deps[i]),
            #[trigger] dependency_key(deps[j]),
        )
}

proof fn lemma_dependency_lt_transitive(
    a: (Seq<char>, DependencyType),
    b: (Seq<char>, DependencyType),
    c: (Seq<char>, DependencyType),
)
    requires
        dependency_lt(a, b),
        dependency_lt(b, c),
    ensures
        dependency_lt(a, c),
{
    if chars_lt(a.0, b.0) && chars_lt(b.0, c.0) {
        lemma_chars_lt_transitive(a.0, b.0, c.0);
    }
}

proof fn lemma_dependency_lt_total(a: (Seq<char>, DependencyType), b: (Seq<char>, DependencyType))
    requires
        a != b,
    ensures
        dependency_lt(a, b) || dependency_lt(b, a),
{
    if a.0 != b.0 {
        lemma_chars_lt_total(a.0, b.0);
    } else {
        assert(a.1 != b.1);
    }
}

fn dependency_less(a: &DependentComponent, b: &DependentComponent) -> (res: bool)
    ensures
        res == dependency_lt(dependency_key(*a), dependency_key(*b)),
{
    let an = chars_of(a.name.as_str());
    let bn = chars_of(b.name.as_str());
    if chars_less(&an, &bn) {
        true
    } else if chars_equal(&an, &bn) {
        dependency_type_rank_exec(a.dep_type) < dependency_type_rank_exec(b.dep_type)
    } else {
        false
    }
}

fn same_dependency(a: &DependentComponent, b: &DependentComponent) -> (res: bool)
    ensures
        res == (dependency_key(*a) == dependency_key(*b)),
{
    chars_equal(&chars_of(a.name.as_str()), &chars_of(b.name.as_str())) && dependency_type_rank_exec(
        a.dep_type,
    ) == dependency_type_rank_exec(b.dep_type)
}

/// Inserts a dependency into dependencies in order, where it is not there yet.
fn insert_dependency(deps: &mut Vec<DependentComponent>, d: &DependentComponent)
    requires
        dependencies_in_order(old(deps)@),
    ensures
        dependencies_in_order(final(deps)@),
        forall|k: (Seq<char>, DependencyType)|
            #[trigger] dependency_keys(final(deps)@).contains(k) <==> (dependency_keys(
                old(deps)@,
            ).contains(k) || k == dependency_key(*d)),
{
    let ghost before = deps@;
    let ghost key = dependency_key(*d);
    let mut i: usize = 0;
    while i < deps.len()
        invariant
            i <= deps.len(),
            before == deps@,
            key == dependency_key(*d),
            dependencies_in_order(before),
            forall|k: int| 0 <= k < i ==> dependency_lt(dependency_key(#[trigger] before[k]), key),
        ensures
            i <= deps.len(),
            before == deps@,
            forall|k: int| 0 <= k < i ==> dependency_lt(dependency_key(#[trigger] before[k]), key),
            i < deps.len() ==> dependency_lt(key, dependency_key(before[i as int])),
        decreases deps.len() - i,
    {
        if same_dependency(&deps[i], d) {
            proof {
                assert(dependency_keys(before)[i as int] == key);
                assert(dependency_keys(before).contains(key));
            }
            return;
        }
        if dependency_less(d, &deps[i]) {
            break;
        }
        proof {
            lemma_dependency_lt_total(dependency_key(before[i as int]), key);
        }
        i = i + 1;
    }
    let copy = DependentComponent { name: d.name.clone(), dep_type: d.dep_type };
    deps.insert(i, copy);
    proof {
        let after = deps@;
        assert(after =~= before.insert(i as int, copy));
        assert(dependency_key(copy) == key);
        assert forall|a: int, b: int| 0 <= a < b < after.len() implies dependency_lt(
            #[trigger] dependency_key(after[a]),
            #[trigger] dependency_key(after[b]),
        ) by {
            if b < i {
            } else if b == i {
                assert(after[a] == before[a]);
            } else if a < i {
                assert(after[a] == before[a]);
                assert(after[b] == before[b - 1]);
            } else if a == i {
                assert(after[b] == before[b - 1]);
                if b - 1 > i {
                    lemma_dependency_lt_transitive(
                        key,
                        dependency_key(before[i as int]),
                        dependency_key(before[b - 1]),
                    );
                }
            } else {
                assert(after[a] == before[a - 1]);
                assert(after[b] == before[b - 1]);
            }
        }
        let ka = dependency_keys(after);
        let kb = dependency_keys(before);
        assert forall|x: (Seq<char>, DependencyType)| #[trigger] ka.contains(x) <==> (kb.contains(x)
            || x == key) by {
            if ka.contains(x) {
                let k = choose|k: int| 0 <= k < ka.len() && ka[k] == x;
                if k < i {
                    assert(kb[k] == x);
                } else if k > i {
                    assert(kb[k - 1] == x);
                }
            }
            if kb.contains(x) {
                let k = choose|k: int| 0 <= k < kb.len() && kb[k] == x;
                if k < i {
                    assert(ka[k] == x);
                } else {
                    assert(ka[k + 1] == x);
                }
            }
            if x == key {
                assert(ka[i as int] == x);
            }
        }
    }
}

/// Linking the RPC dependencies of a component.
pub struct LinkRpcMarkerHash {
    pub component_name: String,
    /// The dependencies, as an ordered set: by name, then by dependency type, each once
    /// (see `new`).
    pub dependencies: Vec<DependentComponent>,
}

impl LinkRpcMarkerHash {
    /// The linking of `component_name` with `dependencies`, which are kept as an ordered
    /// set: sorted by name and then by dependency type, repeated ones once.
    pub fn new(component_name: String, dependencies: &Vec<DependentComponent>) -> (res: Self)
        ensures
            res.component_name == component_name,
            dependencies_in_order(res.dependencies@),
            forall|k: (Seq<char>, DependencyType)|
                #[trigger] dependency_keys(res.dependencies@).contains(k) <==> dependency_keys(
                    dependencies@,
                ).contains(k),
    {
        let mut set: Vec<DependentComponent> = Vec::new();
        let mut i: usize = 0;
        while i < dependencies.len()
            invariant
                i <= dependencies.len(),
                dependencies_in_order(set@),
                forall|k: (Seq<char>, DependencyType)|
                    #[trigger] dependency_keys(set@).contains(k) <==> dependency_keys(
                        dependencies@.take(i as int),
                    ).contains(k),
            decreases dependencies.len() - i,
        {
            let ghost prev = dependency_keys(dependencies@.take(i as int));
            insert_dependency(&mut set, &dependencies[i]);
            proof {
                assert(dependency_keys(dependencies@.take(i + 1)) =~= prev.push(
                    dependency_key(dependencies@[i as int]),
                ));
                assert forall|k: (Seq<char>, DependencyType)|
                    #[trigger] dependency_keys(set@).contains(k) <==> dependency_keys(
                        dependencies@.take(i + 1),
                    ).contains(k) by {
                    crate::text::lemma_push_contains(prev, dependency_key(dependencies@[i as int]));
                }
            }
            i = i + 1;
        }
        assert(dependencies@.take(dependencies.len() as int) =~= dependencies@);
        LinkRpcMarkerHash { component_name, dependencies: set }
    }
}

/// `<name>#<type>` of each dependency.
pub open spec fn dependency_entries(deps: Seq<DependentComponent>) -> Seq<Seq<char>> {
    deps.map_values(|d: DependentComponent| d.name@ + "#"@ + dependency_type_name(d.dep_type))
}

impl TaskResultMarkerHashInput for LinkRpcMarkerHash {
    open spec fn spec_kind() -> Seq<char> {
        "RpcLinkMarkerHash"@
    }

    open spec fn spec_hash_input(&self) -> Result<Seq<char>, Seq<char>> {
        Ok(self.component_name@ + "#"@ + joined(dependency_entries(self.dependencies@), ","@))
    }

    open spec fn spec_id(&self) -> Result<Option<Seq<char>>, Seq<char>> {
        Ok(Some(self.component_name@))
    }

    fn kind() -> (res: &'static str) {
        "RpcLinkMarkerHash"
    }

    fn hash_input(&self) -> (res: Result<String, String>) {
        let mut entries: Vec<String> = Vec::new();
        let mut i: usize = 0;
        while i < self.dependencies.len()
            invariant
                i <= self.dependencies.len(),
                strings_view(entries@) == dependency_entries(self.dependencies@.take(i as int)),
            decreases self.dependencies.len() - i,
        {
            let ghost before = entries@;
            let d = &self.dependencies[i];
            let mut e = d.name.clone();
            e.append("#");
            e.append(d.dep_type.as_str());
            entries.push(e);
            assert(strings_view(entries@) =~= strings_view(before).push(e@));
            assert(dependency_entries(self.dependencies@.take(i + 1)) =~= dependency_entries(
                self.dependencies@.take(i as int),
            ).push(e@));
            i = i + 1;
        }
        assert(self.dependencies@.take(self.dependencies.len() as int) =~= self.dependencies@);
        let mut s = self.component_name.clone();
        s.append("#");
        let list = join(&entries, ",");
        s.append(list.as_str());
        Ok(s)
    }

    fn id(&self) -> (res: Result<Option<String>, String>) {
        Ok(Some(self.component_name.clone()))
    }
}

/// A WIT package name: `namespace:name`, with an optional `@version`.
pub struct PackageName {
    pub namespace: String,
    pub name: String,
    pub version: Option<String>,
}

/// The text of a package name.
pub open spec fn package_name_text(p: PackageName) -> Seq<char> {
    p.namespace@ + ":"@ + p.name@ + match p.version {
        Some(v) => "@"@ + v@,
        None => Seq::empty(),
    }
}

impl PackageName {
    /// The text of this package name, as `wit_parser` displays it.
    pub fn to_text(&self) -> (res: String)
        ensures
            res@ == package_name_text(*self),
    {
        let mut s = self.namespace.clone();
        s.append(":");
        s.append(self.name.as_str());
        match &self.version {
            Some(v) => {
                s.append("@");
                s.append(v.as_str());
            },
            None => {},
        }
        s
    }
}

/// Adding the package metadata to a component.
pub struct AddMetadataMarkerHash {
    pub component_name: String,
    pub root_package_name: PackageName,
}

/// The version of a package name, if it has one.
pub open spec fn version_text(p: PackageName) -> Option<Seq<char>> {
    match p.version {
        Some(v) => Some(v@),
        None => None,
    }
}

/// Adding metadata hashes the root package's version: two tasks of one component whose
/// root package names differ only in the version have different hash inputs, and a
/// versioned package's hash input ends with `@<version>`.
pub proof fn lemma_metadata_hash_input_covers_version(a: AddMetadataMarkerHash, b: AddMetadataMarkerHash)
    ensures
        (a.component_name@ == b.component_name@ && a.root_package_name.namespace@
            == b.root_package_name.namespace@ && a.root_package_name.name@
            == b.root_package_name.name@ && version_text(a.root_package_name) != version_text(
            b.root_package_name,
        )) ==> a.spec_hash_input() != b.spec_hash_input(),
        a.root_package_name.version matches Some(v) ==> ({
            let h = a.spec_hash_input()->Ok_0;
            &&& a.spec_hash_input() is Ok
            &&& h.len() >= v@.len() + 1
            &&& h.skip(h.len() - (v@.len() + 1)) == "@"@ + v@
        }),
{
    reveal_strlit("@");
    let pa = a.component_name@ + "#"@ + a.root_package_name.namespace@ + ":"@
        + a.root_package_name.name@;
    let pb = b.component_name@ + "#"@ + b.root_package_name.namespace@ + ":"@
        + b.root_package_name.name@;
    let ha = a.spec_hash_input()->Ok_0;
    let hb = b.spec_hash_input()->Ok_0;
    match a.root_package_name.version {
        Some(v) => {
            assert(ha =~= pa + ("@"@ + v@));
            assert(ha.skip(ha.len() - (v@.len() + 1)) =~= "@"@ + v@);
        },
        None => {
            assert(ha =~= pa);
        },
    }
    match b.root_package_name.version {
        Some(v) => {
            assert(hb =~= pb + ("@"@ + v@));
        },
        None => {
            assert(hb =~= pb);
        },
    }
    if a.component_name@ == b.component_name@ && a.root_package_name.namespace@
        == b.root_package_name.namespace@ && a.root_package_name.name@
        == b.root_package_name.name@ && version_text(a.root_package_name) != version_text(
        b.root_package_name,
    ) {
        assert(pa == pb);
        match (a.root_package_name.version, b.root_package_name.version) {
            (Some(x), Some(y)) => {
                if ha == hb {
                    assert(ha.skip(pa.len() + 1int) =~= x@);
                    assert(hb.skip(pb.len() + 1int) =~= y@);
                }
            },
            (Some(x), None) => {
                assert(ha.len() > hb.len());
            },
            (None, Some(y)) => {
                assert(hb.len() > ha.len());
            },
            (None, None) => {},
        }
    }
}

impl TaskResultMarkerHashInput for AddMetadataMarkerHash {
    open spec fn spec_kind() -> Seq<char> {
        "AddMetadataMarkerHash"@
    }

    open spec fn spec_hash_input(&self) -> Result<Seq<char>, Seq<char>> {
        Ok(self.component_name@ + "#"@ + package_name_text(self.root_package_name))
    }

    open spec fn spec_id(&self) -> Result<Option<Seq<char>>, Seq<char>> {
        Ok(Some(self.component_name@))
    }

    fn kind() -> (res: &'static str) {
        "AddMetadataMarkerHash"
    }

    fn hash_input(&self) -> (res: Result<String, String>) {
        let mut s = self.component_name.clone();
        s.append("#");
        let p = self.root_package_name.to_text();
        s.append(p.as_str());
        Ok(s)
    }

    fn id(&self) -> (res: Result<Option<String>, String>) {
        Ok(Some(self.component_name.clone()))
    }
}

/// The marker of one task.
pub struct TaskResultMarker {
    pub kind: String,
    pub id: String,
    pub hash_input: String,
    /// The name of the marker file in the marker directory: the hash of the id.
    pub marker_file_name: String,
    pub hex_hash: String,
    pub previous_result: Option<TaskResult>,
}

/// Whether a task with the current hash `hex_hash` is up to date after the recorded run.
pub open spec fn up_to_date(previous: Option<TaskResult>, hex_hash: Seq<char>) -> bool {
    match previous {
        Some(p) => p.hash_hex@ == hex_hash && p.success,
        None => false,
    }
}

/// A marker file that exists is stale, and is removed, where the run it records does not
/// make the task up to date.
pub open spec fn marker_file_stale(
    previous: Option<TaskResult>,
    hex_hash: Seq<char>,
    marker_file_exists: bool,
) -> bool {
    marker_file_exists && !up_to_date(previous, hex_hash)
}

/// The record of a run of the marked task.
pub open spec fn run_record(m: TaskResultMarker, r: TaskResult, success: bool) -> bool {
    &&& r.kind is Some && r.kind->0@ == m.kind@
    &&& r.id is Some && r.id->0@ == m.id@
    &&& r.hash_input is Some && r.hash_input->0@ == m.hash_input@
    &&& r.hash_hex@ == m.hex_hash@
    &&& r.success == success
}

/// A task is up to date after a recorded run exactly when that run succeeded, as long as
/// its kind and hash input stay the same.
pub proof fn lemma_recorded_run_decides_up_to_date(
    marker: TaskResultMarker,
    record: TaskResult,
    success: bool,
    later: TaskResultMarker,
)
    requires
        marker.hex_hash@ == task_hash(marker.kind@, marker.hash_input@),
        run_record(marker, record, success),
        later.hex_hash@ == task_hash(later.kind@, later.hash_input@),
        later.kind@ == marker.kind@,
        later.hash_input@ == marker.hash_input@,
    ensures
        up_to_date(Some(record), later.hex_hash@) == success,
{
}

/// Two tasks of one kind with the same id share one marker file. Where their hash inputs
/// hash differently, a successful run of the first does not make the second up to date:
/// the second's marker has the shared file removed, and without the file the first is not
/// up to date either.
pub proof fn lemma_changed_input_is_not_up_to_date(
    first: TaskResultMarker,
    record: TaskResult,
    second: TaskResultMarker,
)
    requires
        first.hex_hash@ == task_hash(first.kind@, first.hash_input@),
        first.marker_file_name@ == task_hash(first.kind@, first.id@),
        second.hex_hash@ == task_hash(second.kind@, second.hash_input@),
        second.marker_file_name@ == task_hash(second.kind@, second.id@),
        second.kind@ == first.kind@,
        second.id@ == first.id@,
        task_hash(first.kind@, first.hash_input@) != task_hash(second.kind@, second.hash_input@),
        run_record(first, record, true),
    ensures
        second.marker_file_name@ == first.marker_file_name@,
        !up_to_date(Some(record), second.hex_hash@),
        marker_file_stale(Some(record), second.hex_hash@, true),
        !up_to_date(None, first.hex_hash@),
{
}

impl TaskResultMarker {
    /// The marker of a task, before its marker file is read: the hash covers the kind and
    /// the hash input; the marker file is named by the hash of the kind and the id, or by
    /// the task's hash where it has no id. Fails where the task's input or id does.
    pub fn new<T: TaskResultMarkerHashInput>(task: &T) -> (res: Result<Self, String>)
        ensures
            match (task.spec_hash_input(), task.spec_id()) {
                (Err(e), _) => res matches Err(m) && m@ == e,
                (Ok(_), Err(e)) => res matches Err(m) && m@ == e,
                (Ok(h), Ok(id)) => res matches Ok(m) && {
                    &&& m.kind@ == T::spec_kind()
                    &&& m.hash_input@ == h
                    &&& m.id@ == match id {
                        Some(i) => i,
                        None => h,
                    }
                    &&& m.hex_hash@ == task_hash(m.kind@, m.hash_input@)
                    &&& m.marker_file_name@ == task_hash(m.kind@, m.id@)
                    &&& m.previous_result is None
                },
            },
    {
        let kind = T::kind();
        let hash_input = match task.hash_input() {
            Ok(h) => h,
            Err(e) => {
                return Err(e);
            },
        };
        let hex_hash = hash_of(kind, hash_input.as_str());
        let id_opt = match task.id() {
            Ok(i) => i,
            Err(e) => {
                return Err(e);
            },
        };
        let (id, id_hex_hash) = match id_opt {
            Some(id) => {
                let h = hash_of(kind, id.as_str());
                (id, h)
            },
            None => (hash_input.clone(), hex_hash.clone()),
        };
        Ok(
            TaskResultMarker {
                kind: kind.to_string(),
                id,
                hash_input,
                marker_file_name: id_hex_hash,
                hex_hash,
                previous_result: None,
            },
        )
    }

    /// Records the run read from the marker file.
    pub fn with_previous_result(self, previous: Option<TaskResult>) -> (res: Self)
        ensures
            res == (TaskResultMarker { previous_result: previous, ..self }),
    {
        TaskResultMarker { previous_result: previous, ..self }
    }

    /// Whether the recorded run had the current hash and succeeded.
    pub fn is_up_to_date(&self) -> (res: bool)
        ensures
            res == up_to_date(self.previous_result, self.hex_hash@),
    {
        match &self.previous_result {
            Some(previous) => {
                crate::text::chars_equal(
                    &crate::text::chars_of(previous.hash_hex.as_str()),
                    &crate::text::chars_of(self.hex_hash.as_str()),
                ) && previous.success
            },
            None => false,
        }
    }

    /// Whether an existing marker file is stale and is to be removed.
    pub fn must_remove_marker_file(&self, marker_file_exists: bool) -> (res: bool)
        ensures
            res == marker_file_stale(self.previous_result, self.hex_hash@, marker_file_exists),
    {
        marker_file_exists && !self.is_up_to_date()
    }

    fn record(self, success: bool) -> (res: TaskResult)
        ensures
            run_record(self, res, success),
    {
        TaskResult {
            kind: Some(self.kind),
            id: Some(self.id),
            hash_input: Some(self.hash_input),
            hash_hex: self.hex_hash,
            success,
        }
    }

    /// The record of a successful run, to be written to the marker file.
    pub fn success(self) -> (res: TaskResult)
        ensures
            run_record(self, res, true),
    {
        self.record(true)
    }

    /// The record of a failed run, to be written to the marker file.
    pub fn failure(self) -> (res: TaskResult)
        ensures
            run_record(self, res, false),
    {
        self.record(false)
    }

    /// The record of a run that ended with `result`, with the result handed back.
    pub fn result<R, E>(self, result: Result<R, E>) -> (res: (TaskResult, Result<R, E>))
        ensures
            run_record(self, res.0, result is Ok),
            res.1 == result,
    {
        let success = result.is_ok();
        (self.record(success), result)
    }
}

} // verus!
