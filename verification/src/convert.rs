//! The conversion scheduler: admission, shared counters, and the final
//! summary, plus the output-name policy shared by admission and jobs.
//!
//! A `Converter` holds the aggregate state of one batch run. The
//! surrounding binary serialises access to it (one short update per
//! event), spawns one worker per admitted job, and polls
//! [`Converter::has_slot`] before admitting; this library fixes what
//! every transition does to the counters.

use vstd::prelude::*;
use crate::names::{
    file_name, has_suffix_ci, join_path, parent_dir, replace_suffix, spec_file_name,
    spec_has_suffix_ci, spec_join, spec_parent, spec_stem, stem,
};
use crate::job::{ConversionJob, JobState};
use crate::rom_format::{
    RomFormat, NINTENDO_64, NINTENDO_DS, NINTENDO_WII, PLAYSTATION_2, PLAYSTATION_PORTABLE,
    PLAYSTATION_X,
};

verus! {

/// The output path for the PlayStation disc pair: the `iso`, `cue` or
/// `cue.txt` ending (case-insensitively) becomes `chd`; a path with none
/// of those endings is left as it is.
pub open spec fn spec_disc_output(p: Seq<char>) -> Seq<char> {
    if spec_has_suffix_ci(p, "cue.txt"@) {
        p.subrange(0, p.len() - 7) + "chd"@
    } else if spec_has_suffix_ci(p, "iso"@) || spec_has_suffix_ci(p, "cue"@) {
        p.subrange(0, p.len() - 3) + "chd"@
    } else {
        p
    }
}

/// The output path for the cartridge families: the `nds`, `n64`, `v64` or
/// `z64` ending (case-insensitively) becomes `zip`; a path with none of
/// those endings is left as it is.
pub open spec fn spec_cart_output(p: Seq<char>) -> Seq<char> {
    if spec_has_suffix_ci(p, "nds"@) || spec_has_suffix_ci(p, "n64"@) || spec_has_suffix_ci(
        p,
        "v64"@,
    ) || spec_has_suffix_ci(p, "z64"@) {
        p.subrange(0, p.len() - 3) + "zip"@
    } else {
        p
    }
}

/// A sibling of `p` named after its stem with the extension `ext`
/// (`ext` includes the dot).
pub open spec fn spec_sibling_output(p: Seq<char>, ext: Seq<char>) -> Seq<char> {
    spec_join(spec_parent(p), spec_stem(spec_file_name(p)) + ext)
}

/// The output-suffix policy: the PlayStation disc pair maps to `chd`,
/// the PSP to a `cso` sibling, the Wii to an `rvz` sibling, and the
/// cartridge families to `zip`; a format with no platform bit has no
/// output. The precedence mirrors the tool-resolution order.
pub open spec fn spec_output_name(p: Seq<char>, f: RomFormat) -> Option<Seq<char>> {
    if f.spec_has(PLAYSTATION_X) || f.spec_has(PLAYSTATION_2) {
        Some(spec_disc_output(p))
    } else if f.spec_has(PLAYSTATION_PORTABLE) {
        Some(spec_sibling_output(p, ".cso"@))
    } else if f.spec_has(NINTENDO_WII) {
        Some(spec_sibling_output(p, ".rvz"@))
    } else if f.spec_has(NINTENDO_64) || f.spec_has(NINTENDO_DS) {
        Some(spec_cart_output(p))
    } else {
        None
    }
}

/// The aggregate counters of one batch run, as one submission or job
/// completion changes them. `admitted` and `aborted` are bookkeeping
/// that exists only in proofs.
pub ghost struct BatchState {
    pub skipped: nat,
    pub processed: nat,
    pub admitted: nat,
    pub running: nat,
}

/// The counter change of a submission whose output already exists.
pub open spec fn skip_step(s: BatchState) -> BatchState {
    BatchState { skipped: s.skipped + 1, ..s }
}

/// The batch state after `n` submissions that were all skipped.
pub open spec fn after_skips(s: BatchState, n: nat) -> BatchState
    decreases n,
{
    if n == 0 {
        s
    } else {
        after_skips(skip_step(s), (n - 1) as nat)
    }
}

/// Law: a batch of `n` submissions whose outputs all exist already moves
/// only the skipped counter; nothing is processed, no job is admitted, no
/// worker starts. With [`Converter::convert`]'s postcondition tying each
/// such submission to [`skip_step`], this is the second run of an
/// unchanged batch: all skipped.
pub proof fn lemma_rerun_all_skipped(s: BatchState, n: nat)
    ensures
        after_skips(s, n) == (BatchState {
            skipped: s.skipped + n,
            processed: s.processed,
            admitted: s.admitted,
            running: s.running,
        }),
    decreases n,
{
    if n > 0 {
        lemma_rerun_all_skipped(skip_step(s), (n - 1) as nat);
    }
}

/// The aggregate figures reported after a drained batch run.
#[derive(Clone, Copy, Debug, PartialEq, Eq, Structural)]
pub struct Summary {
    pub processed: usize,
    pub skipped: usize,
    pub total: usize,
    pub input_bytes: u64,
    pub output_bytes: u64,
    pub saved_bytes: u64,
}

/// The scheduler of one batch run: concurrency limit, shared counters,
/// and the policy switches, all owned here; the surrounding binary holds
/// it behind a lock and performs the I/O the transitions call for.
pub struct Converter {
    pub available_threads: usize,
    pub thread_count: usize,
    pub skipped_files: usize,
    pub processed_files: usize,
    pub input_file_size: u64,
    pub output_file_size: u64,
    pub verbose: bool,
    pub remove_after_compression: bool,
    pub flatten: bool,
    pub root_directory: String,
    pub temp_dir: String,
    /// How many jobs were ever admitted (proof bookkeeping only).
    pub admitted: Ghost<nat>,
    /// How many admitted jobs ended interrupted (proof bookkeeping only).
    pub aborted: Ghost<nat>,
}

impl Converter {
    /// Every admitted job is either still running, or was folded into the
    /// processed or the aborted count: nothing is lost or counted twice.
    pub open spec fn wf(&self) -> bool {
        self.admitted@ == self.processed_files + self.aborted@ + self.thread_count
    }

    /// How many submissions the scheduler has accepted in any form.
    pub open spec fn total_submitted(&self) -> nat {
        (self.admitted@ + self.skipped_files) as nat
    }

    /// The counters of this scheduler as a [`BatchState`].
    pub open spec fn batch_view(&self) -> BatchState {
        BatchState {
            skipped: self.skipped_files as nat,
            processed: self.processed_files as nat,
            admitted: self.admitted@,
            running: self.thread_count as nat,
        }
    }

    /// A fresh scheduler over `root`, staging into `temp_dir`, running at
    /// most `threads` jobs at once. All counters start at zero; the
    /// policy switches start disabled.
    pub fn new(root: &String, temp_dir: String, threads: usize) -> (c: Converter)
        ensures
            c.wf(),
            c.available_threads == threads,
            c.thread_count == 0,
            c.skipped_files == 0,
            c.processed_files == 0,
            c.input_file_size == 0,
            c.output_file_size == 0,
            !c.verbose,
            !c.remove_after_compression,
            !c.flatten,
            c.root_directory@ == root@,
            c.temp_dir == temp_dir,
            c.admitted@ == 0,
            c.aborted@ == 0,
    {
        Converter {
            available_threads: threads,
            thread_count: 0,
            skipped_files: 0,
            processed_files: 0,
            input_file_size: 0,
            output_file_size: 0,
            verbose: false,
            remove_after_compression: false,
            flatten: false,
            root_directory: root.clone(),
            temp_dir,
            admitted: Ghost(0),
            aborted: Ghost(0),
        }
    }

    /// Enable or disable per-job progress messages.
    pub fn verbose(self, verbose: bool) -> (c: Converter)
        ensures
            c == (Converter { verbose, ..self }),
    {
        Converter { verbose, ..self }
    }

    /// Enable or disable deleting input files after a successful job.
    pub fn remove_after_compression(self, remove: bool) -> (c: Converter)
        ensures
            c == (Converter { remove_after_compression: remove, ..self }),
    {
        Converter { remove_after_compression: remove, ..self }
    }

    /// Enable or disable collapsing singleton directories after success.
    pub fn flatten(self, flatten: bool) -> (c: Converter)
        ensures
            c == (Converter { flatten, ..self }),
    {
        Converter { flatten, ..self }
    }

    /// The path a conversion of `file` as `format` writes, under the
    /// output-suffix policy of [`spec_output_name`]; `None` when the
    /// format names no platform.
    pub fn get_output_file_name(file: &String, format: RomFormat) -> (r: Option<String>)
        ensures
            match r {
                Some(p) => spec_output_name(file@, format) == Some(p@),
                None => spec_output_name(file@, format) is None,
            },
    {
        let s = file.as_str();
        if format.has(PLAYSTATION_X) || format.has(PLAYSTATION_2) {
            proof {
                reveal_strlit("cue.txt");
                reveal_strlit("iso");
                reveal_strlit("cue");
            }
            if has_suffix_ci(s, "cue.txt") {
                Some(replace_suffix(s, 7, "chd"))
            } else if has_suffix_ci(s, "iso") || has_suffix_ci(s, "cue") {
                Some(replace_suffix(s, 3, "chd"))
            } else {
                Some(file.clone())
            }
        } else if format.has(PLAYSTATION_PORTABLE) {
            Some(Self::sibling_output(s, ".cso"))
        } else if format.has(NINTENDO_WII) {
            Some(Self::sibling_output(s, ".rvz"))
        } else if format.has(NINTENDO_64) || format.has(NINTENDO_DS) {
            proof {
                reveal_strlit("nds");
                reveal_strlit("n64");
                reveal_strlit("v64");
                reveal_strlit("z64");
            }
            if has_suffix_ci(s, "nds") || has_suffix_ci(s, "n64") || has_suffix_ci(s, "v64")
                || has_suffix_ci(s, "z64") {
                Some(replace_suffix(s, 3, "zip"))
            } else {
                Some(file.clone())
            }
        } else {
            None
        }
    }

    /// A sibling path named after the stem of `p`'s file name, with `ext`.
    fn sibling_output(p: &str, ext: &str) -> (r: String)
        ensures
            r@ == spec_sibling_output(p@, ext@),
    {
        let name = file_name(p);
        let mut base = stem(name.as_str());
        base.append(ext);
        let parent = parent_dir(p);
        join_path(parent.as_str(), base.as_str())
    }

    /// Is a job slot free?
    pub fn has_slot(&self) -> (r: bool)
        ensures
            r == (self.thread_count < self.available_threads),
    {
        self.thread_count < self.available_threads
    }

    /// Submit one conversion of `file` as `format`. When the prospective
    /// output already exists the submission is skipped: only the skipped
    /// counter moves, no slot is taken, no job exists, and no tool can
    /// run. Otherwise a slot is taken and the fresh job is handed back
    /// for the caller's worker to drive.
    pub fn convert(&mut self, file: &String, format: RomFormat, output_exists: bool) -> (job:
        Option<ConversionJob>)
        requires
            old(self).wf(),
            output_exists ==> old(self).skipped_files < usize::MAX,
            !output_exists ==> old(self).thread_count < old(self).available_threads,
        ensures
            final(self).wf(),
            output_exists ==> job is None && *final(self) == (Converter {
                skipped_files: (old(self).skipped_files + 1) as usize,
                ..*old(self)
            }),
            output_exists ==> final(self).batch_view() == skip_step(old(self).batch_view()),
            !output_exists ==> (match job {
                Some(j) => {
                    &&& j.source@ == file@
                    &&& j.format == format
                    &&& j.state == JobState::Planned
                    &&& j.files.deep_view() == Seq::<crate::plan::FileTag>::empty()
                    &&& j.input_size == 0
                    &&& j.output_size == 0
                },
                None => false,
            }) && *final(self) == (Converter {
                thread_count: (old(self).thread_count + 1) as usize,
                admitted: Ghost((old(self).admitted@ + 1) as nat),
                ..*old(self)
            }),
            final(self).skipped_files >= old(self).skipped_files,
            final(self).processed_files == old(self).processed_files,
            final(self).input_file_size == old(self).input_file_size,
            final(self).output_file_size == old(self).output_file_size,
            final(self).total_submitted() == old(self).total_submitted() + 1,
    {
        if output_exists {
            self.skipped_files = self.skipped_files + 1;
            None
        } else {
            self.thread_count = self.thread_count + 1;
            proof {
                self.admitted@ = self.admitted@ + 1;
            }
            Some(ConversionJob::new(file.clone(), format))
        }
    }

    /// Fold one finished job into the aggregates: the slot is released;
    /// a completed job adds its measurements and counts as processed, an
    /// interrupted one leaves every other counter unchanged.
    pub fn job_finished(&mut self, completed: bool, input_bytes: u64, output_bytes: u64)
        requires
            old(self).wf(),
            old(self).thread_count >= 1,
            completed ==> old(self).processed_files < usize::MAX,
            completed ==> old(self).input_file_size + input_bytes <= u64::MAX,
            completed ==> old(self).output_file_size + output_bytes <= u64::MAX,
        ensures
            final(self).wf(),
            completed ==> *final(self) == (Converter {
                thread_count: (old(self).thread_count - 1) as usize,
                processed_files: (old(self).processed_files + 1) as usize,
                input_file_size: (old(self).input_file_size + input_bytes) as u64,
                output_file_size: (old(self).output_file_size + output_bytes) as u64,
                ..*old(self)
            }),
            !completed ==> *final(self) == (Converter {
                thread_count: (old(self).thread_count - 1) as usize,
                aborted: Ghost((old(self).aborted@ + 1) as nat),
                ..*old(self)
            }),
            final(self).input_file_size >= old(self).input_file_size,
            final(self).output_file_size >= old(self).output_file_size,
            final(self).skipped_files == old(self).skipped_files,
            final(self).processed_files >= old(self).processed_files,
            final(self).total_submitted() == old(self).total_submitted(),
    {
        self.thread_count = self.thread_count - 1;
        if completed {
            self.processed_files = self.processed_files + 1;
            self.input_file_size = self.input_file_size + input_bytes;
            self.output_file_size = self.output_file_size + output_bytes;
        } else {
            proof {
                self.aborted@ = self.aborted@ + 1;
            }
        }
    }

    /// The summary of a drained run: every counter as it stands, the
    /// total as processed plus skipped, and the saving as the difference
    /// of the byte counters (zero if the outputs grew).
    pub fn finish(&self) -> (s: Summary)
        requires
            self.thread_count == 0,
            self.processed_files + self.skipped_files <= usize::MAX,
        ensures
            s.processed == self.processed_files,
            s.skipped == self.skipped_files,
            s.total == self.processed_files + self.skipped_files,
            s.input_bytes == self.input_file_size,
            s.output_bytes == self.output_file_size,
            s.saved_bytes == if self.output_file_size <= self.input_file_size {
                self.input_file_size - self.output_file_size
            } else {
                0
            },
    {
        let saved = if self.output_file_size <= self.input_file_size {
            self.input_file_size - self.output_file_size
        } else {
            0
        };
        Summary {
            processed: self.processed_files,
            skipped: self.skipped_files,
            total: self.processed_files + self.skipped_files,
            input_bytes: self.input_file_size,
            output_bytes: self.output_file_size,
            saved_bytes: saved,
        }
    }
}

/// Law: after a drained run (no job still running) in which no job was
/// interrupted, the processed and skipped counters account for every
/// submission: `processed + skipped == total submitted`.
pub proof fn lemma_drain_accounting(c: Converter)
    requires
        c.wf(),
        c.thread_count == 0,
        c.aborted@ == 0,
    ensures
        c.processed_files + c.skipped_files == c.total_submitted(),
{
}

} // verus!
