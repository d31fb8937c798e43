//! Laws of classification and scanning, proved from the contracts above.
use vstd::prelude::*;
use crate::classify::{cargo_doc, detect_spec, detected, has_name};
use crate::manifest::{lookup, Doc};
use crate::paths::extension;
use crate::project::{is_rust_family, DirProbe, ProjectInfo, ProjectType, StructureView};
use crate::paths::child_path;
use crate::scan::{after_entries, clean, fed, under, EntryKind, ScanEntry, ScanState, TreeScanner};
use crate::structure::{categorized, excluded_dir_name, role_of, source_ext, FileRole};
use crate::text::contains_seq;

verus! {

/// A directory whose only manifest is a Cargo manifest that declares a `wasm-bindgen`
/// dependency is a WebAssembly crate, with the feature `wasm`.
pub proof fn law_wasm_bindgen_makes_wasm(p: DirProbe, d: Doc)
    requires
        has_name(p.entries@, "Cargo.toml"@),
        !has_name(p.entries@, "package.json"@),
        cargo_doc(p) == Some(d),
        lookup(lookup(Some(d), "dependencies"@), "wasm-bindgen"@) is Some,
    ensures
        detect_spec(p) matches Some(i) && i.project_type == ProjectType::RustWasm
            && i.features.contains("wasm"@),
{
    let i = detect_spec(p)->0;
    assert(i.features[0] == "wasm"@);
}

/// A directory with both a Cargo manifest and a package manifest is a Rust project.
pub proof fn law_cargo_manifest_takes_precedence(p: DirProbe)
    requires
        has_name(p.entries@, "Cargo.toml"@),
        has_name(p.entries@, "package.json"@),
    ensures
        detect_spec(p) matches Some(i) && is_rust_family(i.project_type),
{
}

/// A directory with neither a Cargo manifest nor a package manifest holds no supported
/// project.
pub proof fn law_no_manifest_no_project(p: DirProbe)
    requires
        !has_name(p.entries@, "Cargo.toml"@),
        !has_name(p.entries@, "package.json"@),
    ensures
        detect_spec(p) is None,
{
}

/// Reading a directory never queues a subdirectory with an excluded name.
pub proof fn law_excluded_subdirectory_not_queued(
    st: ScanState,
    dir: Seq<char>,
    comps: Seq<Seq<char>>,
    es: Seq<ScanEntry>,
)
    requires
        forall|k: int, m: int|
            0 <= k < st.queue.len() && 0 <= m < st.queue[k].len() ==> !excluded_dir_name(
                #[trigger] st.queue[k][m],
            ),
        clean(comps),
    ensures
        ({
            let q = after_entries(st, dir, comps, es).queue;
            forall|k: int, m: int|
                0 <= k < q.len() && 0 <= m < q[k].len() ==> !excluded_dir_name(#[trigger] q[k][m])
        }),
    decreases es.len(),
{
    if es.len() > 0 {
        law_excluded_subdirectory_not_queued(st, dir, comps, es.drop_last());
        let prev = after_entries(st, dir, comps, es.drop_last());
        let next = after_entries(st, dir, comps, es);
        let e = es.last();
        assert forall|k: int, m: int|
            0 <= k < next.queue.len() && 0 <= m < next.queue[k].len() implies !excluded_dir_name(
            #[trigger] next.queue[k][m],
        ) by {
            if k < prev.queue.len() {
                assert(next.queue[k] == prev.queue[k]);
            } else {
                assert(next.queue[k] == comps.push(e.name@));
                if m < comps.len() {
                    assert(comps.push(e.name@)[m] == comps[m]);
                }
            }
        }
    }
}

/// Reading a listing only adds, after the source files already recorded, paths of files of
/// that listing inside the directory being read.
pub proof fn lemma_new_sources_from_listing(
    st: ScanState,
    dir: Seq<char>,
    comps: Seq<Seq<char>>,
    es: Seq<ScanEntry>,
)
    ensures
        ({
            let old_src = st.structure.source_files;
            let src = after_entries(st, dir, comps, es).structure.source_files;
            &&& old_src.len() <= src.len()
            &&& src.take(old_src.len() as int) == old_src
            &&& forall|j: int|
                old_src.len() <= j < src.len() ==> exists|k: int|
                    0 <= k < es.len() && es[k].kind == EntryKind::File && #[trigger] src[j]
                        == child_path(dir, es[k].name@)
        }),
    decreases es.len(),
{
    let old_src = st.structure.source_files;
    if es.len() > 0 {
        let rest = es.drop_last();
        lemma_new_sources_from_listing(st, dir, comps, rest);
        let prev = after_entries(st, dir, comps, rest).structure.source_files;
        let src = after_entries(st, dir, comps, es).structure.source_files;
        let e = es.last();
        assert(src == prev || (e.kind == EntryKind::File && src == prev.push(child_path(dir, e.name@))));
        assert(src.take(old_src.len() as int) =~= prev.take(old_src.len() as int));
        assert forall|j: int| old_src.len() <= j < src.len() implies exists|k: int|
            0 <= k < es.len() && es[k].kind == EntryKind::File && #[trigger] src[j] == child_path(
                dir,
                es[k].name@,
            ) by {
            if j < prev.len() {
                assert(src[j] == prev[j]);
                let k = choose|k: int|
                    0 <= k < rest.len() && rest[k].kind == EntryKind::File && prev[j] == child_path(
                        dir,
                        rest[k].name@,
                    );
                assert(es[k] == rest[k]);
            } else {
                assert(es[es.len() - 1] == e);
            }
        }
    } else {
        assert(old_src.take(old_src.len() as int) =~= old_src);
    }
}

/// Files inside a directory with an excluded name are never recorded: a listing handed to a
/// scan only adds to the source files paths of its own files inside the directory being read,
/// and that directory lies below the root through no excluded directory.
pub proof fn law_excluded_directories_never_read(
    before: TreeScanner,
    es: Seq<ScanEntry>,
    after: TreeScanner,
)
    requires
        before.pruned(),
        fed(before, es, after),
        before.current_dir() is Some,
    ensures
        clean(before.current_dir()->0),
        ({
            let c = before.current_dir()->0;
            let old_src = before.state().structure.source_files;
            let src = after.state().structure.source_files;
            &&& src.take(old_src.len() as int) == old_src
            &&& forall|j: int|
                old_src.len() <= j < src.len() ==> exists|k: int|
                    0 <= k < es.len() && es[k].kind == EntryKind::File && #[trigger] src[j]
                        == child_path(under(before.root_path(), c), es[k].name@)
        }),
{
    let c = before.current_dir()->0;
    lemma_new_sources_from_listing(before.state(), under(before.root_path(), c), c, es);
}

/// A file with a source extension whose path holds `test` is recorded as a test file and never
/// as a source file.
pub proof fn law_test_paths_are_tests(s: StructureView, p: Seq<char>)
    requires
        extension(p) matches Some(e) && source_ext(e),
        contains_seq(p, "test"@),
    ensures
        role_of(p) == FileRole::Test,
        categorized(s, p).test_files == s.test_files.push(p),
        categorized(s, p).source_files == s.source_files,
{
}

/// Classifying the same directory twice gives the same project, field for field.
pub proof fn law_classification_repeatable(
    p: DirProbe,
    a: Option<ProjectInfo>,
    b: Option<ProjectInfo>,
)
    requires
        detected(p, a),
        detected(p, b),
    ensures
        a is Some <==> b is Some,
        a is Some ==> a->0@ == b->0@,
{
}

/// Handing the same listing to two scans in the same state leaves them in the same state.
pub proof fn law_scan_repeatable(
    s1: TreeScanner,
    s2: TreeScanner,
    es: Seq<ScanEntry>,
    f1: TreeScanner,
    f2: TreeScanner,
)
    requires
        s1.root_path() == s2.root_path(),
        s1.current_dir() == s2.current_dir(),
        s1.state() == s2.state(),
        fed(s1, es, f1),
        fed(s2, es, f2),
    ensures
        f1.state() == f2.state(),
        f1.current_dir() == f2.current_dir(),
{
}

} // verus!
