//! File-set planning: which files take part in one conversion, what role
//! each plays, and which staging copies must be made before the tool runs.
//!
//! Every file a job touches is tagged with a [`Role`]; one cleanup rule
//! reads the tags at the end of the job, whatever the format was.

use vstd::prelude::*;
use vstd::string::*;
use crate::names::{
    file_name, has_suffix_ci, join_path, lemma_last_sep_bounds, parent_dir, spec_file_name,
    spec_has_suffix_ci, spec_join, spec_parent, spec_stem, stem,
};
use crate::rom_format::{RomFormat, BIN, NINTENDO_64, NINTENDO_DS, Z64};

verus! {

/// Why a file belongs to a conversion job.
#[derive(Clone, Copy, Debug, PartialEq, Eq, Structural)]
pub enum Role {
    /// Handed to the tool as source material; not created by this program.
    Input,
    /// Created by this program while staging; always removed afterwards.
    Temporary,
    /// The conversion target; removed only when the job was interrupted.
    Output,
}

/// One file a conversion job manages, with its cleanup role.
#[derive(Clone, Debug)]
pub struct ManagedFile {
    pub path: String,
    pub role: Role,
}

/// The mathematical image of a [`ManagedFile`].
pub ghost struct FileTag {
    pub path: Seq<char>,
    pub role: Role,
}

impl View for ManagedFile {
    type V = FileTag;

    open spec fn view(&self) -> FileTag {
        FileTag { path: self.path@, role: self.role }
    }
}

impl DeepView for ManagedFile {
    type V = FileTag;

    open spec fn deep_view(&self) -> FileTag {
        self@
    }
}

/// A staging copy the caller must perform before the tool is invoked.
/// Failure to copy is not fatal to planning; the tool then fails loudly.
#[derive(Clone, Debug)]
pub struct CopyAction {
    pub from: String,
    pub to: String,
}

/// The mathematical image of a [`CopyAction`].
pub ghost struct CopyStep {
    pub from: Seq<char>,
    pub to: Seq<char>,
}

impl View for CopyAction {
    type V = CopyStep;

    open spec fn view(&self) -> CopyStep {
        CopyStep { from: self.from@, to: self.to@ }
    }
}

impl DeepView for CopyAction {
    type V = CopyStep;

    open spec fn deep_view(&self) -> CopyStep {
        self@
    }
}

/// The planned file set for converting `path` as `f`, with the cue sheet's
/// referenced track files `tracks` (ignored unless `f` holds the raw-binary
/// bit) and the shared scratch directory `temp_dir`:
///
/// - raw binary with cue sheet: the cue path itself is the input; a
///   text-suffixed cue variant is first copied to its canonical name as a
///   temporary; every referenced track file is a further input;
/// - Nintendo 64 not yet in the canonical variant: the tool writes a
///   canonical sibling, registered as a temporary;
/// - Nintendo DS: a staged copy in the scratch directory, as a temporary;
/// - anything else: the path alone, as the input.
pub open spec fn spec_plan(
    path: Seq<char>,
    f: RomFormat,
    tracks: Seq<Seq<char>>,
    temp_dir: Seq<char>,
) -> Seq<FileTag> {
    if f.spec_has(BIN) {
        let base = seq![FileTag { path, role: Role::Input }];
        let staged = if spec_has_suffix_ci(spec_file_name(path), "cue.txt"@) {
            base.push(
                FileTag { path: path.subrange(0, path.len() - 4), role: Role::Temporary },
            )
        } else {
            base
        };
        staged + tracks.map_values(
            |t: Seq<char>| FileTag { path: spec_join(spec_parent(path), t), role: Role::Input },
        )
    } else if f.spec_has(NINTENDO_64) {
        let base = seq![FileTag { path, role: Role::Input }];
        if f.spec_has(Z64) {
            base
        } else {
            base.push(
                FileTag {
                    path: spec_join(
                        spec_parent(path),
                        spec_stem(spec_file_name(path)) + ".z64"@,
                    ),
                    role: Role::Temporary,
                },
            )
        }
    } else if f.spec_has(NINTENDO_DS) {
        seq![
            FileTag { path, role: Role::Input },
            FileTag { path: spec_join(temp_dir, spec_file_name(path)), role: Role::Temporary },
        ]
    } else {
        seq![FileTag { path, role: Role::Input }]
    }
}

/// The staging copies planning asks for: a text-suffixed cue variant is
/// copied to its canonical name, and a Nintendo DS image is copied into
/// the scratch directory. No other format stages anything.
pub open spec fn spec_copies(
    path: Seq<char>,
    f: RomFormat,
    temp_dir: Seq<char>,
) -> Seq<CopyStep> {
    if f.spec_has(BIN) && spec_has_suffix_ci(spec_file_name(path), "cue.txt"@) {
        seq![CopyStep { from: path, to: path.subrange(0, path.len() - 4) }]
    } else if !f.spec_has(BIN) && !f.spec_has(NINTENDO_64) && f.spec_has(NINTENDO_DS) {
        seq![CopyStep { from: path, to: spec_join(temp_dir, spec_file_name(path)) }]
    } else {
        seq![]
    }
}

/// Plan the file set and staging copies for one conversion.
pub fn plan_files(
    path: &String,
    format: RomFormat,
    tracks: &Vec<String>,
    temp_dir: &String,
) -> (r: (Vec<ManagedFile>, Vec<CopyAction>))
    ensures
        r.0.deep_view() == spec_plan(path@, format, tracks.deep_view(), temp_dir@),
        r.1.deep_view() == spec_copies(path@, format, temp_dir@),
{
    let mut files: Vec<ManagedFile> = Vec::new();
    let mut copies: Vec<CopyAction> = Vec::new();
    if format.has(BIN) {
        files.push(ManagedFile { path: path.clone(), role: Role::Input });
        let name = file_name(path.as_str());
        if has_suffix_ci(name.as_str(), "cue.txt") {
            proof {
                reveal_strlit("cue.txt");
                lemma_last_sep_bounds(path@);
                assert(spec_file_name(path@).len() <= path@.len());
            }
            let n = path.as_str().unicode_len();
            let canonical = path.as_str().substring_char(0, n - 4).to_owned();
            copies.push(CopyAction { from: path.clone(), to: canonical.clone() });
            files.push(ManagedFile { path: canonical, role: Role::Temporary });
            proof {
                assert(path@.subrange(0, path@.len() - 4) =~= path@.subrange(
                    0,
                    n - 4,
                ));
            }
        }
        let parent = parent_dir(path.as_str());
        let ghost staged = files.deep_view();
        let mut i: usize = 0;
        while i < tracks.len()
            invariant
                i <= tracks.len(),
                parent@ == spec_parent(path@),
                files.deep_view() =~= staged + tracks.deep_view().take(i as int).map_values(
                    |t: Seq<char>| FileTag { path: spec_join(spec_parent(path@), t), role: Role::Input },
                ),
            decreases tracks.len() - i,
        {
            let ghost before = files.deep_view();
            let joined = join_path(parent.as_str(), tracks[i].as_str());
            files.push(ManagedFile { path: joined, role: Role::Input });
            proof {
                let tagger = |t: Seq<char>| FileTag {
                    path: spec_join(spec_parent(path@), t),
                    role: Role::Input,
                };
                assert(tracks.deep_view()[i as int] == tracks@[i as int]@);
                assert(files.deep_view() =~= before.push(
                    FileTag {
                        path: spec_join(spec_parent(path@), tracks.deep_view()[i as int]),
                        role: Role::Input,
                    },
                ));
                assert(tracks.deep_view().take(i + 1).map_values(tagger)
                    =~= tracks.deep_view().take(i as int).map_values(tagger).push(
                    tagger(tracks.deep_view()[i as int]),
                ));
                assert(files.deep_view() =~= staged + tracks.deep_view().take(i + 1).map_values(
                    |t: Seq<char>| FileTag {
                        path: spec_join(spec_parent(path@), t),
                        role: Role::Input,
                    },
                ));
            }
            i += 1;
        }
        proof {
            assert(tracks.deep_view().take(tracks.deep_view().len() as int) =~= tracks.deep_view());
            assert(files.deep_view() =~= spec_plan(path@, format, tracks.deep_view(), temp_dir@));
            assert(copies.deep_view() =~= spec_copies(path@, format, temp_dir@));
        }
        (files, copies)
    } else if format.has(NINTENDO_64) {
        files.push(ManagedFile { path: path.clone(), role: Role::Input });
        if !format.has(Z64) {
            let name = file_name(path.as_str());
            let mut sibling = stem(name.as_str());
            sibling.append(".z64");
            let joined = join_path(parent_dir(path.as_str()).as_str(), sibling.as_str());
            files.push(ManagedFile { path: joined, role: Role::Temporary });
        }
        proof {
            assert(files.deep_view() =~= spec_plan(path@, format, tracks.deep_view(), temp_dir@));
            assert(copies.deep_view() =~= spec_copies(path@, format, temp_dir@));
        }
        (files, copies)
    } else if format.has(NINTENDO_DS) {
        files.push(ManagedFile { path: path.clone(), role: Role::Input });
        let name = file_name(path.as_str());
        let staged = join_path(temp_dir.as_str(), name.as_str());
        copies.push(CopyAction { from: path.clone(), to: staged.clone() });
        files.push(ManagedFile { path: staged, role: Role::Temporary });
        proof {
            assert(files.deep_view() =~= spec_plan(path@, format, tracks.deep_view(), temp_dir@));
            assert(copies.deep_view() =~= spec_copies(path@, format, temp_dir@));
        }
        (files, copies)
    } else {
        files.push(ManagedFile { path: path.clone(), role: Role::Input });
        proof {
            assert(files.deep_view() =~= spec_plan(path@, format, tracks.deep_view(), temp_dir@));
            assert(copies.deep_view() =~= spec_copies(path@, format, temp_dir@));
        }
        (files, copies)
    }
}

/// A file with this role is deleted during cleanup: temporaries always,
/// inputs only on success under the remove policy, the output only after
/// an interruption (a partial output must never remain).
pub open spec fn spec_deleted(role: Role, remove_inputs: bool, interrupted: bool) -> bool {
    match role {
        Role::Temporary => true,
        Role::Input => remove_inputs && !interrupted,
        Role::Output => interrupted,
    }
}

/// The paths cleanup deletes, in the order the file set lists them.
pub open spec fn spec_cleanup(
    files: Seq<FileTag>,
    remove_inputs: bool,
    interrupted: bool,
) -> Seq<Seq<char>>
    decreases files.len(),
{
    if files.len() == 0 {
        seq![]
    } else {
        let rest = spec_cleanup(files.drop_first(), remove_inputs, interrupted);
        if spec_deleted(files[0].role, remove_inputs, interrupted) {
            seq![files[0].path] + rest
        } else {
            rest
        }
    }
}

/// The paths to delete when a job ends: every temporary unconditionally;
/// inputs only if `remove_inputs` is set and the job was not interrupted;
/// the output only if it was.
pub fn cleanup_paths(files: &Vec<ManagedFile>, remove_inputs: bool, interrupted: bool) -> (r:
    Vec<String>)
    ensures
        r.deep_view() == spec_cleanup(files.deep_view(), remove_inputs, interrupted),
{
    let ghost all = files.deep_view();
    let mut out: Vec<String> = Vec::new();
    proof {
        assert(all.skip(0) =~= all);
        assert(out.deep_view() + spec_cleanup(all, remove_inputs, interrupted) =~= spec_cleanup(
            all,
            remove_inputs,
            interrupted,
        ));
    }
    let mut i: usize = 0;
    while i < files.len()
        invariant
            i <= files.len(),
            all == files.deep_view(),
            spec_cleanup(all, remove_inputs, interrupted) == out.deep_view() + spec_cleanup(
                all.skip(i as int),
                remove_inputs,
                interrupted,
            ),
        decreases files.len() - i,
    {
        proof {
            assert(all.skip(i as int).drop_first() =~= all.skip(i + 1));
            assert(all.skip(i as int)[0] == all[i as int]);
        }
        let f = &files[i];
        let delete = match f.role {
            Role::Temporary => true,
            Role::Input => remove_inputs && !interrupted,
            Role::Output => interrupted,
        };
        if delete {
            out.push(f.path.clone());
            proof {
                assert(out.deep_view().drop_last() =~= out.deep_view().subrange(
                    0,
                    out.deep_view().len() - 1,
                ));
                assert(spec_cleanup(all, remove_inputs, interrupted) =~= out.deep_view()
                    + spec_cleanup(all.skip(i + 1), remove_inputs, interrupted));
            }
        } else {
            proof {
                assert(spec_cleanup(all, remove_inputs, interrupted) =~= out.deep_view()
                    + spec_cleanup(all.skip(i + 1), remove_inputs, interrupted));
            }
        }
        i += 1;
    }
    proof {
        assert(all.skip(files.deep_view().len() as int) =~= Seq::<FileTag>::empty());
        assert(spec_cleanup(all, remove_inputs, interrupted) =~= out.deep_view());
    }
    out
}


/// Law: when a job was interrupted, cleanup removes every temporary file
/// and the (partial) output, and leaves every input alone — whatever the
/// remove policy says: every deleted path belongs to a temporary or
/// output entry, never to an input entry.
pub proof fn lemma_interrupted_cleanup(files: Seq<FileTag>, remove_inputs: bool)
    ensures
        forall|i: int|
            0 <= i < files.len() && ((#[trigger] files[i].role) == Role::Temporary || files[
                i
            ].role == Role::Output) ==> spec_cleanup(files, remove_inputs, true).contains(
                files[i].path,
            ),
        forall|p: Seq<char>|
            #[trigger] spec_cleanup(files, remove_inputs, true).contains(p) ==> exists|i: int|
                0 <= i < files.len() && files[i].path == p && (files[i].role == Role::Temporary
                    || files[i].role == Role::Output),
    decreases files.len(),
{
    if files.len() > 0 {
        let rest = files.drop_first();
        lemma_interrupted_cleanup(rest, remove_inputs);
        let cleaned = spec_cleanup(files, remove_inputs, true);
        let cleaned_rest = spec_cleanup(rest, remove_inputs, true);
        let head_deleted = spec_deleted(files[0].role, remove_inputs, true);
        assert forall|i: int|
            0 <= i < files.len() && ((#[trigger] files[i].role) == Role::Temporary || files[
                i
            ].role == Role::Output) implies cleaned.contains(files[i].path) by {
            if i == 0 {
                assert(cleaned[0] == files[0].path);
            } else {
                assert(rest[i - 1] == files[i]);
                assert(cleaned_rest.contains(files[i].path));
                let j = choose|j: int|
                    0 <= j < cleaned_rest.len() && cleaned_rest[j] == files[i].path;
                if head_deleted {
                    assert(cleaned[j + 1] == files[i].path);
                } else {
                    assert(cleaned[j] == files[i].path);
                }
            }
        }
        assert forall|p: Seq<char>| #[trigger] cleaned.contains(p) implies exists|i: int|
            0 <= i < files.len() && files[i].path == p && (files[i].role == Role::Temporary
                || files[i].role == Role::Output) by {
            let j = choose|j: int| 0 <= j < cleaned.len() && cleaned[j] == p;
            if head_deleted && j == 0 {
                assert(files[0].path == p && (files[0].role == Role::Temporary || files[0].role
                    == Role::Output));
            } else {
                let jr = if head_deleted {
                    j - 1
                } else {
                    j
                };
                assert(cleaned_rest[jr] == p);
                assert(cleaned_rest.contains(p));
                let i = choose|i: int|
                    0 <= i < rest.len() && rest[i].path == p && (rest[i].role == Role::Temporary
                        || rest[i].role == Role::Output);
                assert(files[i + 1] == rest[i]);
                assert(files[i + 1].path == p && (files[i + 1].role == Role::Temporary || files[
                    i + 1
                ].role == Role::Output));
            }
        }
    }
}

/// The first file with role `role` in a planned set, if any.
pub open spec fn first_with_role(files: Seq<FileTag>, role: Role) -> Option<Seq<char>>
    decreases files.len(),
{
    if files.len() == 0 {
        None
    } else if files[0].role == role {
        Some(files[0].path)
    } else {
        first_with_role(files.drop_first(), role)
    }
}

/// The first file carrying `role` in a planned set, if any. The first
/// temporary is the staged copy that in-place tools and the archive
/// packager work on; the first input is the fallback source.
pub fn find_with_role(files: &Vec<ManagedFile>, role: Role) -> (r: Option<String>)
    ensures
        match r {
            Some(p) => first_with_role(files.deep_view(), role) == Some(p@),
            None => first_with_role(files.deep_view(), role) is None,
        },
{
    let ghost all = files.deep_view();
    let mut i: usize = 0;
    proof {
        assert(all.skip(0) =~= all);
    }
    while i < files.len()
        invariant
            i <= files.len(),
            all == files.deep_view(),
            first_with_role(all, role) == first_with_role(all.skip(i as int), role),
        decreases files.len() - i,
    {
        proof {
            assert(all.skip(i as int)[0] == all[i as int]);
            assert(all.skip(i as int).drop_first() =~= all.skip(i + 1));
        }
        if files[i].role == role {
            let p = files[i].path.clone();
            return Some(p);
        }
        i += 1;
    }
    None
}

} // verus!
