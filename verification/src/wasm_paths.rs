//! Where compiled Wasm contracts are looked for, and the message given when
//! none of those places holds the file. Paths are handled as the bytes of
//! Unix paths.
use vstd::prelude::*;
use vstd::string::StringSliceAdditionalSpecFns;

verus! {

/// The separator of path components, `/`.
pub const SEPARATOR: u8 = 47u8;

/// A path is absolute when it starts with the separator.
pub open spec fn is_absolute(path: Seq<u8>) -> bool {
    path.len() > 0 && path[0] == SEPARATOR
}

/// `base` joined with `component` as `PathBuf::push` does on Unix: an
/// absolute component replaces the base; otherwise a separator is put between
/// them unless the base is empty or already ends with one.
pub open spec fn joined(base: Seq<u8>, component: Seq<u8>) -> Seq<u8> {
    if is_absolute(component) {
        component
    } else if base.len() == 0 || base.last() == SEPARATOR {
        base + component
    } else {
        base + seq![SEPARATOR] + component
    }
}

/// `dir/wasm32-unknown-unknown/release`: where cargo puts the contracts that
/// it compiles to Wasm in release mode, under a target directory.
pub open spec fn release_wasm_dir(target_dir: Seq<u8>) -> Seq<u8> {
    joined(joined(target_dir, "wasm32-unknown-unknown".spec_bytes()), "release".spec_bytes())
}

/// The directories searched for compiled Wasm, in order: where contracts are
/// also built with AssemblyScript, the workspace's `target_as` directory; the
/// release directory under the workspace's `target`; the `wasm` directory
/// under the current directory; and the release directory under
/// `CARGO_TARGET_DIR` where that is set.
pub open spec fn compiled_wasm_paths(
    workspace_path: Seq<u8>,
    current_dir: Seq<u8>,
    cargo_target_dir: Option<Seq<u8>>,
    assembly_script: bool,
) -> Seq<Seq<u8>> {
    let rust = seq![
        release_wasm_dir(joined(workspace_path, "target".spec_bytes())),
        joined(current_dir, "wasm".spec_bytes()),
    ];
    let fixed = if assembly_script {
        seq![joined(workspace_path, "target_as".spec_bytes())] + rust
    } else {
        rust
    };
    match cargo_target_dir {
        Some(dir) => fixed.push(release_wasm_dir(dir)),
        None => fixed,
    }
}

/// The paths at which a contract file is looked for, in order: a relative
/// file under each of the Wasm directories, then the file as given.
pub open spec fn wasm_file_candidates_of(wasm_paths: Seq<Seq<u8>>, contract_file: Seq<u8>) -> Seq<
    Seq<u8>,
> {
    if is_absolute(contract_file) {
        seq![contract_file]
    } else {
        wasm_paths.map_values(|dir: Seq<u8>| joined(dir, contract_file)).push(contract_file)
    }
}

/// The lines that list the places tried, one `    - <path>` line each.
pub open spec fn attempted_lines(attempted: Seq<Seq<u8>>) -> Seq<u8>
    decreases attempted.len(),
{
    if attempted.len() == 0 {
        Seq::empty()
    } else {
        attempted_lines(attempted.drop_last()) + "    - ".spec_bytes() + attempted.last()
            + "\n".spec_bytes()
    }
}

/// The text of the failure to find a contract file among `attempted`.
pub open spec fn not_found_message(attempted: Seq<Seq<u8>>) -> Seq<u8> {
    "\nFailed to open compiled Wasm file.  Tried the following locations:\n".spec_bytes()
        + attempted_lines(attempted) + "\n".spec_bytes()
}

/// A relative component is appended to the base: the joined path starts
/// with the base and ends with the component.
pub proof fn law_join_appends_relative_component(base: Seq<u8>, component: Seq<u8>)
    requires
        !is_absolute(component),
    ensures
        joined(base, component).subrange(0, base.len() as int) == base,
        joined(base, component).subrange(
            joined(base, component).len() - component.len(),
            joined(base, component).len() as int,
        ) == component,
{
    let j = joined(base, component);
    assert(j.subrange(0, base.len() as int) =~= base);
    assert(j.subrange(j.len() - component.len(), j.len() as int) =~= component);
}

/// A relative contract file is looked for under every Wasm directory, in
/// their order, and last as given; an absolute one only as given.
pub proof fn law_candidates_cover_every_directory(wasm_paths: Seq<Seq<u8>>, contract_file: Seq<u8>)
    ensures
        is_absolute(contract_file) ==> wasm_file_candidates_of(wasm_paths, contract_file) == seq![
            contract_file,
        ],
        !is_absolute(contract_file) ==> {
            let candidates = wasm_file_candidates_of(wasm_paths, contract_file);
            &&& candidates.len() == wasm_paths.len() + 1
            &&& forall|i: int|
                0 <= i < wasm_paths.len() ==> #[trigger] candidates[i] == joined(
                    wasm_paths[i],
                    contract_file,
                )
            &&& candidates.last() == contract_file
        },
{
}

/// Where AssemblyScript contracts are looked for, the workspace's `target_as`
/// directory comes first, whether `CARGO_TARGET_DIR` is set or not, and the
/// rest of the list is the one without AssemblyScript: the release directory
/// under the workspace's `target`, the current directory's `wasm`, then the
/// release directory under `CARGO_TARGET_DIR` where set.
pub proof fn law_assembly_script_is_searched_first(
    workspace_path: Seq<u8>,
    current_dir: Seq<u8>,
    cargo_target_dir: Option<Seq<u8>>,
)
    ensures
        compiled_wasm_paths(workspace_path, current_dir, cargo_target_dir, true).len() > 0,
        compiled_wasm_paths(workspace_path, current_dir, cargo_target_dir, true)[0] == joined(
            workspace_path,
            "target_as".spec_bytes(),
        ),
        compiled_wasm_paths(workspace_path, current_dir, cargo_target_dir, true).drop_first()
            == compiled_wasm_paths(workspace_path, current_dir, cargo_target_dir, false),
        ({
            let rust = compiled_wasm_paths(workspace_path, current_dir, cargo_target_dir, false);
            &&& rust.len() == if cargo_target_dir is Some { 3int } else { 2int }
            &&& rust[0] == release_wasm_dir(joined(workspace_path, "target".spec_bytes()))
            &&& rust[1] == joined(current_dir, "wasm".spec_bytes())
            &&& cargo_target_dir matches Some(dir) ==> rust[2] == release_wasm_dir(dir)
        }),
{
    let with_as = compiled_wasm_paths(workspace_path, current_dir, cargo_target_dir, true);
    let without = compiled_wasm_paths(workspace_path, current_dir, cargo_target_dir, false);
    assert(with_as.drop_first() =~= without);
}

/// Appends the bytes of `tail` to `bytes`.
fn append_bytes(bytes: &mut Vec<u8>, tail: &[u8])
    ensures
        final(bytes)@ == old(bytes)@ + tail@,
{
    let mut i: usize = 0;
    while i < tail.len()
        invariant
            i <= tail@.len(),
            bytes@ == old(bytes)@ + tail@.subrange(0, i as int),
        decreases tail@.len() - i,
    {
        bytes.push(tail[i]);
        assert(tail@.subrange(0, i + 1) =~= tail@.subrange(0, i as int).push(tail@[i as int]));
        i = i + 1;
    }
    assert(tail@.subrange(0, tail@.len() as int) =~= tail@);
}

/// Whether `path` is relative, that is not absolute.
pub fn is_relative(path: &[u8]) -> (relative: bool)
    ensures
        relative == !is_absolute(path@),
{
    !(path.len() > 0 && path[0] == SEPARATOR)
}

/// `base` joined with `component` (see `joined`).
pub fn join(base: &[u8], component: &[u8]) -> (path: Vec<u8>)
    ensures
        path@ == joined(base@, component@),
{
    let mut path: Vec<u8> = Vec::new();
    if !is_relative(component) {
        append_bytes(&mut path, component);
        return path;
    }
    append_bytes(&mut path, base);
    if base.len() > 0 && base[base.len() - 1] != SEPARATOR {
        path.push(SEPARATOR);
    }
    append_bytes(&mut path, component);
    path
}

/// `dir/wasm32-unknown-unknown/release`.
fn release_dir(target_dir: &[u8]) -> (path: Vec<u8>)
    ensures
        path@ == release_wasm_dir(target_dir@),
{
    let arch = join(target_dir, "wasm32-unknown-unknown".as_bytes());
    join(&arch, "release".as_bytes())
}

/// Constructs the list of directories to search for a compiled Wasm file,
/// from the workspace's root, the current directory, the value of
/// `CARGO_TARGET_DIR`, where set, and whether contracts compiled with
/// AssemblyScript are looked for first.
pub fn get_compiled_wasm_paths(
    workspace_path: &[u8],
    current_dir: &[u8],
    cargo_target_dir: Option<&[u8]>,
    assembly_script: bool,
) -> (paths: Vec<Vec<u8>>)
    ensures
        paths@.map_values(|p: Vec<u8>| p@) == compiled_wasm_paths(
            workspace_path@,
            current_dir@,
            match cargo_target_dir {
                Some(dir) => Some(dir@),
                None => None,
            },
            assembly_script,
        ),
        assembly_script ==> paths@.len() > 0 && paths@[0]@ == joined(
            workspace_path@,
            "target_as".spec_bytes(),
        ),
{
    let target = join(workspace_path, "target".as_bytes());
    let mut ret: Vec<Vec<u8>> = Vec::new();
    if assembly_script {
        ret.push(join(workspace_path, "target_as".as_bytes()));
    }
    ret.push(release_dir(&target));
    ret.push(join(current_dir, "wasm".as_bytes()));
    match cargo_target_dir {
        Some(dir) => {
            ret.push(release_dir(dir));
        },
        None => {},
    }
    assert(ret@.map_values(|p: Vec<u8>| p@) =~= compiled_wasm_paths(
        workspace_path@,
        current_dir@,
        match cargo_target_dir {
            Some(dir) => Some(dir@),
            None => None,
        },
        assembly_script,
    ));
    proof {
        law_assembly_script_is_searched_first(
            workspace_path@,
            current_dir@,
            match cargo_target_dir {
                Some(dir) => Some(dir@),
                None => None,
            },
        );
    }
    ret
}

/// The paths at which `contract_file` is looked for, in the order tried.
pub fn wasm_file_candidates(wasm_paths: &Vec<Vec<u8>>, contract_file: &[u8]) -> (candidates: Vec<
    Vec<u8>,
>)
    ensures
        candidates@.map_values(|p: Vec<u8>| p@) == wasm_file_candidates_of(
            wasm_paths@.map_values(|p: Vec<u8>| p@),
            contract_file@,
        ),
{
    let ghost dirs = wasm_paths@.map_values(|p: Vec<u8>| p@);
    let mut candidates: Vec<Vec<u8>> = Vec::new();
    if is_relative(contract_file) {
        let mut i: usize = 0;
        while i < wasm_paths.len()
            invariant
                i <= wasm_paths@.len(),
                dirs == wasm_paths@.map_values(|p: Vec<u8>| p@),
                candidates@.map_values(|p: Vec<u8>| p@) =~= dirs.subrange(0, i as int).map_values(
                    |dir: Seq<u8>| joined(dir, contract_file@),
                ),
            decreases wasm_paths@.len() - i,
        {
            let path = join(&wasm_paths[i], contract_file);
            let ghost before = candidates@;
            candidates.push(path);
            assert(candidates@.map_values(|p: Vec<u8>| p@) =~= before.map_values(|p: Vec<u8>| p@).push(path@));
            assert(dirs.subrange(0, i + 1).map_values(|dir: Seq<u8>| joined(dir, contract_file@))
                =~= dirs.subrange(0, i as int).map_values(|dir: Seq<u8>| joined(dir, contract_file@)).push(
                joined(dirs[i as int], contract_file@),
            ));
            i = i + 1;
        }
        assert(dirs.subrange(0, wasm_paths@.len() as int) =~= dirs);
    }
    let mut file: Vec<u8> = Vec::new();
    append_bytes(&mut file, contract_file);
    candidates.push(file);
    assert(candidates@.map_values(|p: Vec<u8>| p@) =~= wasm_file_candidates_of(
        dirs,
        contract_file@,
    ));
    candidates
}

/// The message given when a contract file was found at none of `attempted`.
pub fn wasm_file_not_found_message(attempted: &Vec<Vec<u8>>) -> (message: Vec<u8>)
    ensures
        message@ == not_found_message(attempted@.map_values(|p: Vec<u8>| p@)),
{
    let ghost paths = attempted@.map_values(|p: Vec<u8>| p@);
    let mut message: Vec<u8> = Vec::new();
    append_bytes(
        &mut message,
        "\nFailed to open compiled Wasm file.  Tried the following locations:\n".as_bytes(),
    );
    let ghost header = message@;
    let mut i: usize = 0;
    while i < attempted.len()
        invariant
            i <= attempted@.len(),
            paths == attempted@.map_values(|p: Vec<u8>| p@),
            header
                == "\nFailed to open compiled Wasm file.  Tried the following locations:\n".spec_bytes(),
            message@ == header + attempted_lines(paths.subrange(0, i as int)),
        decreases attempted@.len() - i,
    {
        append_bytes(&mut message, "    - ".as_bytes());
        append_bytes(&mut message, attempted[i].as_slice());
        append_bytes(&mut message, "\n".as_bytes());
        assert(paths.subrange(0, i + 1).drop_last() =~= paths.subrange(0, i as int));
        i = i + 1;
    }
    assert(paths.subrange(0, attempted@.len() as int) =~= paths);
    append_bytes(&mut message, "\n".as_bytes());
    message
}

/// What to do next while looking for a contract file among its candidate
/// paths.
pub enum WasmLookupStep {
    /// Try to read the candidate at this position.
    Read(usize),
    /// The last read succeeded: these are the contract's bytes.
    Found(Vec<u8>),
    /// No candidate could be read: the message to fail with.
    NotFound(Vec<u8>),
}

/// One step of the lookup of a contract file: `tried` candidates were read
/// without success before `last_read`, the outcome of the latest read, if
/// any. The first successful read ends the lookup with its bytes; otherwise
/// the next candidate is read, and when none is left the lookup fails with
/// the message that lists every candidate.
pub fn wasm_lookup_step(
    candidates: &Vec<Vec<u8>>,
    tried: usize,
    last_read: Option<Vec<u8>>,
) -> (step: WasmLookupStep)
    ensures
        match last_read {
            Some(bytes) => step == WasmLookupStep::Found(bytes),
            None => if tried < candidates@.len() {
                step == WasmLookupStep::Read(tried)
            } else {
                step matches WasmLookupStep::NotFound(message) && message@ == not_found_message(
                    candidates@.map_values(|p: Vec<u8>| p@),
                )
            },
        },
{
    match last_read {
        Some(bytes) => WasmLookupStep::Found(bytes),
        None => {
            if tried < candidates.len() {
                WasmLookupStep::Read(tried)
            } else {
                WasmLookupStep::NotFound(wasm_file_not_found_message(candidates))
            }
        },
    }
}

} // verus!
