//! Classification: which format, if any, a path holds.
//!
//! Classification is a pure decision over plain facts: the path, whether
//! it names a regular file, and — for cue sheet candidates — what the cue
//! sheet references and whether those files are present. The surrounding
//! binary gathers the facts (it probes the filesystem and reads the cue
//! text, handing it to [`crate::cue_sheet::cue_track_files`]); this
//! module alone decides, and it never touches the filesystem itself.

use vstd::prelude::*;
use crate::names::{file_name, has_suffix_ci, spec_file_name, spec_has_suffix_ci};
use crate::rom_format::{
    spec_compression_tool, CompressionTool, RomFormat, BIN, FILE_FORMATS, ISO, N64, NDS,
    NINTENDO_64, NINTENDO_DS, NINTENDO_WII, PLAYSTATION_2, PLAYSTATION_PORTABLE, PLAYSTATION_X,
    V64, Z64,
};

verus! {

/// The cue sheet facts classification needs: the files the sheet
/// references, and, for each, whether it exists next to the sheet.
pub struct CueFacts {
    pub tracks: Vec<String>,
    pub exists: Vec<bool>,
}

/// The mathematical image of [`CueFacts`].
pub ghost struct CueView {
    pub tracks: Seq<Seq<char>>,
    pub exists: Seq<bool>,
}

impl View for CueFacts {
    type V = CueView;

    open spec fn view(&self) -> CueView {
        CueView { tracks: self.tracks.deep_view(), exists: self.exists@ }
    }
}

/// The `i`-th referenced track file uses the raw-binary extension and is
/// present beside the cue sheet.
pub open spec fn cue_track_ok(cue: CueView, i: int) -> bool {
    spec_has_suffix_ci(cue.tracks[i], ".bin"@) && cue.exists[i]
}

/// A cue sheet anchors a raw binary image only when every referenced
/// track file uses the raw-binary extension and is present beside it.
pub open spec fn cue_tracks_good(cue: CueView) -> bool {
    cue.tracks.len() == cue.exists.len() && (forall|i: int|
        0 <= i < cue.tracks.len() ==> #[trigger] cue_track_ok(cue, i))
}

/// The classification policy, by the file name's extension (always ASCII
/// case-insensitively), on the facts alone:
///
/// - something that is not a regular file is never recognized;
/// - a cue sheet (canonical or text-suffixed) is recognized as a raw
///   binary image for the PlayStation pair — but only if the sheet could
///   be read (`cue` is present) and every referenced track file is a
///   present raw-binary file; a raw image without usable cue boundaries
///   is deliberately left unrecognized rather than guessed;
/// - an ISO image may hold any of the disc consoles;
/// - the three cartridge variants and the handheld cartridge map to
///   their container bit and platform family.
pub open spec fn spec_guess(path: Seq<char>, is_file: bool, cue: Option<CueView>) -> Option<
    RomFormat,
> {
    let name = spec_file_name(path);
    if !is_file {
        None
    } else if spec_has_suffix_ci(name, ".cue"@) || spec_has_suffix_ci(name, ".cue.txt"@) {
        match cue {
            Some(c) => if cue_tracks_good(c) {
                Some(RomFormat { bits: PLAYSTATION_X | PLAYSTATION_2 | BIN })
            } else {
                None
            },
            None => None,
        }
    } else if spec_has_suffix_ci(name, ".iso"@) {
        Some(
            RomFormat {
                bits: PLAYSTATION_X | PLAYSTATION_2 | PLAYSTATION_PORTABLE | NINTENDO_WII | ISO,
            },
        )
    } else if spec_has_suffix_ci(name, ".n64"@) {
        Some(RomFormat { bits: N64 | NINTENDO_64 })
    } else if spec_has_suffix_ci(name, ".v64"@) {
        Some(RomFormat { bits: V64 | NINTENDO_64 })
    } else if spec_has_suffix_ci(name, ".z64"@) {
        Some(RomFormat { bits: Z64 | NINTENDO_64 })
    } else if spec_has_suffix_ci(name, ".nds"@) {
        Some(RomFormat { bits: NDS | NINTENDO_DS })
    } else {
        None
    }
}

/// Check the cue facts: referenced files all raw-binary and all present.
fn check_cue(cue: &CueFacts) -> (r: bool)
    ensures
        r == cue_tracks_good(cue@),
{
    if cue.tracks.len() != cue.exists.len() {
        return false;
    }
    let mut i: usize = 0;
    while i < cue.tracks.len()
        invariant
            i <= cue.tracks.len(),
            cue.tracks.len() == cue.exists.len(),
            forall|j: int|
                0 <= j < i ==> spec_has_suffix_ci(#[trigger] cue.tracks@[j]@, ".bin"@)
                    && cue.exists@[j],
        decreases cue.tracks.len() - i,
    {
        let good = has_suffix_ci(cue.tracks[i].as_str(), ".bin") && cue.exists[i];
        if !good {
            proof {
                assert(cue@.tracks[i as int] == cue.tracks@[i as int]@);
                assert(!cue_track_ok(cue@, i as int));
            }
            return false;
        }
        proof {
            assert forall|j: int| 0 <= j < i + 1 implies spec_has_suffix_ci(
                #[trigger] cue.tracks@[j]@,
                ".bin"@,
            ) && cue.exists@[j] by {
                if j == i {
                    assert(cue@.tracks[j] == cue.tracks@[j]@);
                }
            }
        }
        i += 1;
    }
    proof {
        assert forall|j: int| 0 <= j < cue@.tracks.len() implies #[trigger] cue_track_ok(
            cue@,
            j,
        ) by {
            assert(cue@.tracks[j] == cue.tracks@[j]@);
        }
    }
    true
}

/// Classify `path`. `is_file` says whether it names a regular file, and
/// `cue` carries the sheet's facts when the path looks like a cue sheet
/// (`None` when the sheet could not be read; it is ignored otherwise).
/// The result is exactly [`spec_guess`] of those facts: classification is
/// deterministic and reads nothing from the environment.
pub fn guess_file(path: &String, is_file: bool, cue: Option<&CueFacts>) -> (r: Option<RomFormat>)
    ensures
        match cue {
            Some(c) => r == spec_guess(path@, is_file, Some(c@)),
            None => r == spec_guess(path@, is_file, None::<CueView>),
        },
{
    if !is_file {
        return None;
    }
    let name = file_name(path.as_str());
    let n = name.as_str();
    if has_suffix_ci(n, ".cue") || has_suffix_ci(n, ".cue.txt") {
        match cue {
            Some(c) => {
                if check_cue(c) {
                    Some(RomFormat::from_bits(PLAYSTATION_X | PLAYSTATION_2 | BIN))
                } else {
                    None
                }
            },
            None => None,
        }
    } else if has_suffix_ci(n, ".iso") {
        Some(
            RomFormat::from_bits(
                PLAYSTATION_X | PLAYSTATION_2 | PLAYSTATION_PORTABLE | NINTENDO_WII | ISO,
            ),
        )
    } else if has_suffix_ci(n, ".n64") {
        Some(RomFormat::from_bits(N64 | NINTENDO_64))
    } else if has_suffix_ci(n, ".v64") {
        Some(RomFormat::from_bits(V64 | NINTENDO_64))
    } else if has_suffix_ci(n, ".z64") {
        Some(RomFormat::from_bits(Z64 | NINTENDO_64))
    } else if has_suffix_ci(n, ".nds") {
        Some(RomFormat::from_bits(NDS | NINTENDO_DS))
    } else {
        None
    }
}

/// Law: classification is deterministic — equal facts give equal results,
/// whoever asks and whenever. Together with [`guess_file`]'s postcondition
/// (its result is exactly `spec_guess` of its arguments, a mathematical
/// function) this says classification is pure; it can touch nothing,
/// since it is given nothing but values.
pub proof fn lemma_guess_file_deterministic(
    path: Seq<char>,
    is_file: bool,
    cue: Option<CueView>,
    other_path: Seq<char>,
    other_is_file: bool,
    other_cue: Option<CueView>,
)
    requires
        path == other_path,
        is_file == other_is_file,
        cue == other_cue,
    ensures
        spec_guess(path, is_file, cue) == spec_guess(other_path, other_is_file, other_cue),
{
}

/// Law: a cue sheet one of whose referenced track files is missing — or
/// does not use the raw-binary extension — is not recognized, even though
/// its own extension matched.
pub proof fn lemma_bad_track_unrecognized(path: Seq<char>, cue: CueView, i: int)
    requires
        spec_has_suffix_ci(spec_file_name(path), ".cue"@) || spec_has_suffix_ci(
            spec_file_name(path),
            ".cue.txt"@,
        ),
        cue.tracks.len() == cue.exists.len(),
        0 <= i < cue.tracks.len(),
        !cue_track_ok(cue, i),
    ensures
        spec_guess(path, true, Some(cue)) is None,
{
    if cue_tracks_good(cue) {
        assert(cue_track_ok(cue, i));
    }
}

/// Law: the format a recognized cue sheet is classified as — raw binary
/// for the PlayStation pair — still resolves to the shared disc tool
/// after it is narrowed to either PlayStation target: classifier,
/// narrowing and resolver compose as the pipeline expects.
pub proof fn lemma_cue_format_resolves_the_disc_tool(target: u16)
    requires
        target == PLAYSTATION_X || target == PLAYSTATION_2,
    ensures
        spec_compression_tool(
            RomFormat { bits: ((PLAYSTATION_X | PLAYSTATION_2 | BIN) & FILE_FORMATS) | target },
        ) == Some(CompressionTool::Chdman),
{
    let narrowed: u16 = ((PLAYSTATION_X | PLAYSTATION_2 | BIN) & FILE_FORMATS) | target;
    assert(narrowed & PLAYSTATION_X == PLAYSTATION_X || narrowed & PLAYSTATION_2
        == PLAYSTATION_2) by (bit_vector)
        requires
            narrowed == ((PLAYSTATION_X | PLAYSTATION_2 | BIN) & FILE_FORMATS) | target,
            target == PLAYSTATION_X || target == PLAYSTATION_2,
    ;
}

} // verus!
