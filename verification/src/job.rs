//! One conversion job: a state machine from `Planned` through `Running`
//! to `Completed`, `Interrupted` or `Skipped`.
//!
//! The job owns its file set and its measurements. The surrounding binary
//! drives it: it performs the staging copies, spawns and polls the
//! external tool, streams the archive, and carries out the cleanup
//! deletions — each step exactly as the transitions here dictate.

use vstd::prelude::*;
use vstd::pervasive::unreached;
use crate::convert::{spec_output_name, Converter};
use crate::names::{has_suffix_ci, replace_suffix, spec_has_suffix_ci};
use crate::plan::{
    cleanup_paths, find_with_role, first_with_role, plan_files, spec_cleanup, spec_copies,
    spec_plan, CopyAction, FileTag, ManagedFile, Role,
};
use crate::rom_format::{
    spec_build, spec_compression_tool, CompressionTool, RomFormat, ToolInvocation, BIN,
    NINTENDO_64,
};

verus! {

/// Where a conversion job stands.
#[derive(Clone, Copy, Debug, PartialEq, Eq, Structural)]
pub enum JobState {
    /// Created, nothing done yet.
    Planned,
    /// File set planned; the tool or the packager may be working.
    Running,
    /// Converted; measurements are valid.
    Completed,
    /// Stopped by cancellation or a tool failure; output must not remain.
    Interrupted,
    /// The output already existed; nothing was touched.
    Skipped,
}

/// What the tool's monitor saw at one poll.
#[derive(Clone, Copy, Debug, PartialEq, Eq, Structural)]
pub enum PollStatus {
    /// The child process has not exited yet.
    StillRunning,
    /// The child exited successfully.
    ExitedOk,
    /// The child exited with a failure, or its status could not be read.
    ExitedErr,
}

/// What the caller must do after one poll.
#[derive(Clone, Copy, Debug, PartialEq, Eq, Structural)]
pub enum PollAction {
    /// Sleep one interval and poll again.
    Wait,
    /// Cancellation was observed: kill the child; the job is interrupted.
    Kill,
    /// The tool succeeded: go on to packaging or completion.
    Proceed,
    /// The tool failed: the job is interrupted.
    Abort,
}

/// The tool's real input: for a raw-binary job whose path still carries
/// the text suffix, the canonical cue name the staged copy restores;
/// otherwise the source path itself.
pub open spec fn spec_canonical_input(p: Seq<char>, f: RomFormat) -> Seq<char> {
    if f.spec_has(BIN) && spec_has_suffix_ci(p, ".txt"@) {
        p.subrange(0, p.len() - 4)
    } else {
        p
    }
}

/// The file the archive packager streams: the staged temporary when one
/// exists, the first input otherwise.
pub open spec fn spec_packaging_source(files: Seq<FileTag>) -> Option<Seq<char>> {
    match first_with_role(files, Role::Temporary) {
        Some(p) => Some(p),
        None => first_with_role(files, Role::Input),
    }
}

/// The command line a running job spawns: the resolved tool applied to
/// the canonical input (the staged temporary for the tool that works on
/// a staged copy), writing the computed output. `None` when no tool is
/// resolved and packaging is the only step.
pub open spec fn spec_invocation(
    source: Seq<char>,
    f: RomFormat,
    files: Seq<FileTag>,
) -> Option<(Seq<char>, Seq<Seq<char>>)> {
    match spec_compression_tool(f) {
        None => None,
        Some(t) => {
            let input = if t == CompressionTool::BitButcher {
                first_with_role(files, Role::Temporary).unwrap()
            } else {
                spec_canonical_input(source, f)
            };
            Some(spec_build(t, input, spec_output_name(spec_canonical_input(source, f), f).unwrap()))
        },
    }
}

/// The mathematical sum of the sizes of the input-tagged files among the
/// first `i` entries (`sizes` gives each entry's on-disk size).
pub open spec fn spec_input_sum(files: Seq<FileTag>, sizes: Seq<u64>, i: int) -> int
    decreases i,
{
    if i <= 0 {
        0
    } else {
        spec_input_sum(files, sizes, i - 1) + (if files[i - 1].role == Role::Input {
            sizes[i - 1] as int
        } else {
            0
        })
    }
}

/// One unit of work: converting a single source file.
pub struct ConversionJob {
    pub source: String,
    pub format: RomFormat,
    pub files: Vec<ManagedFile>,
    pub state: JobState,
    pub input_size: u64,
    pub output_size: u64,
}

impl ConversionJob {
    /// The running job can always name its output and its tool input: the
    /// format names a platform, the file set holds an input, and the tool
    /// that works on a staged copy has its staged temporary.
    pub open spec fn wf(&self) -> bool {
        self.state == JobState::Running ==> {
            &&& spec_output_name(
                spec_canonical_input(self.source@, self.format),
                self.format,
            ) is Some
            &&& first_with_role(self.files.deep_view(), Role::Input) is Some
            &&& (spec_compression_tool(self.format) == Some(CompressionTool::BitButcher)
                ==> first_with_role(self.files.deep_view(), Role::Temporary) is Some)
        }
    }

    /// A fresh job for `source` as `format`, not yet planned.
    pub fn new(source: String, format: RomFormat) -> (j: ConversionJob)
        ensures
            j.source == source,
            j.format == format,
            j.files.deep_view() == Seq::<FileTag>::empty(),
            j.state == JobState::Planned,
            j.input_size == 0,
            j.output_size == 0,
            j.wf(),
    {
        let j = ConversionJob {
            source,
            format,
            files: Vec::new(),
            state: JobState::Planned,
            input_size: 0,
            output_size: 0,
        };
        proof {
            assert(j.files.deep_view() =~= Seq::<FileTag>::empty());
        }
        j
    }

    /// The tool's real input path for this job.
    pub fn canonical_input(&self) -> (r: String)
        ensures
            r@ == spec_canonical_input(self.source@, self.format),
    {
        proof {
            reveal_strlit(".txt");
        }
        let s = self.source.as_str();
        if self.format.has(BIN) && has_suffix_ci(s, ".txt") {
            let r = replace_suffix(s, 4, "");
            proof {
                reveal_strlit("");
                assert(r@ =~= self.source@.subrange(0, self.source@.len() - 4));
            }
            r
        } else {
            self.source.clone()
        }
    }

    /// The output path this job writes, under the output-suffix policy.
    pub fn output_path(&self) -> (r: Option<String>)
        ensures
            match r {
                Some(p) => spec_output_name(
                    spec_canonical_input(self.source@, self.format),
                    self.format,
                ) == Some(p@),
                None => spec_output_name(
                    spec_canonical_input(self.source@, self.format),
                    self.format,
                ) is None,
            },
    {
        let input = self.canonical_input();
        Converter::get_output_file_name(&input, self.format)
    }

    /// Move from `Planned` to `Running` (or straight to `Skipped` when the
    /// output already exists): plan the file set, register the output
    /// entry, and return the staging copies the caller must perform.
    /// `tracks` are the cue sheet's referenced track files, empty for
    /// formats without one.
    pub fn begin(&mut self, output_exists: bool, tracks: &Vec<String>, temp_dir: &String) -> (r:
        Vec<CopyAction>)
        requires
            old(self).state == JobState::Planned,
            old(self).files.deep_view() == Seq::<FileTag>::empty(),
            spec_output_name(
                spec_canonical_input(old(self).source@, old(self).format),
                old(self).format,
            ) is Some,
            spec_compression_tool(old(self).format) == Some(CompressionTool::BitButcher)
                ==> !old(self).format.spec_has(BIN) && !old(self).format.spec_has(NINTENDO_64),
        ensures
            final(self).source == old(self).source,
            final(self).format == old(self).format,
            final(self).input_size == old(self).input_size,
            final(self).output_size == old(self).output_size,
            final(self).wf(),
            output_exists ==> final(self).state == JobState::Skipped && final(self).files
                == old(self).files && r.deep_view() == Seq::<crate::plan::CopyStep>::empty(),
            !output_exists ==> final(self).state == JobState::Running && final(self).files.deep_view()
                == spec_plan(
                old(self).source@,
                old(self).format,
                tracks.deep_view(),
                temp_dir@,
            ).push(
                FileTag {
                    path: spec_output_name(
                        spec_canonical_input(old(self).source@, old(self).format),
                        old(self).format,
                    ).unwrap(),
                    role: Role::Output,
                },
            ) && r.deep_view() == spec_copies(old(self).source@, old(self).format, temp_dir@),
    {
        if output_exists {
            self.state = JobState::Skipped;
            let r: Vec<CopyAction> = Vec::new();
            proof {
                assert(r.deep_view() =~= Seq::<crate::plan::CopyStep>::empty());
            }
            return r;
        }
        let (mut files, copies) = plan_files(&self.source, self.format, tracks, temp_dir);
        let out = self.output_path();
        match out {
            Some(p) => {
                files.push(ManagedFile { path: p, role: Role::Output });
            },
            None => unreached(),
        }
        self.files = files;
        self.state = JobState::Running;
        proof {
            let planned = spec_plan(
                self.source@,
                self.format,
                tracks.deep_view(),
                temp_dir@,
            );
            assert(self.files.deep_view() =~= planned.push(
                FileTag {
                    path: spec_output_name(
                        spec_canonical_input(self.source@, self.format),
                        self.format,
                    ).unwrap(),
                    role: Role::Output,
                },
            ));
            assert(planned[0] == (FileTag { path: self.source@, role: Role::Input }));
            lemma_first_with_role_head(self.files.deep_view(), Role::Input);
            if spec_compression_tool(self.format) == Some(CompressionTool::BitButcher) {
                assert(self.format.spec_has(crate::rom_format::NINTENDO_DS));
                assert(planned[1].role == Role::Temporary);
                lemma_first_with_role_second(self.files.deep_view(), Role::Temporary);
            }
        }
        copies
    }

    /// Record the summed on-disk sizes of the input-tagged files, measured
    /// before the tool runs. `sizes` gives the size of each entry of the
    /// file set, in order; entries with other roles are ignored. The sum
    /// saturates rather than overflowing.
    pub fn measure_inputs(&mut self, sizes: &Vec<u64>)
        requires
            sizes@.len() == old(self).files.deep_view().len(),
        ensures
            *final(self) == (ConversionJob {
                input_size: final(self).input_size,
                ..*old(self)
            }),
            final(self).input_size as int == {
                let total = spec_input_sum(
                    old(self).files.deep_view(),
                    sizes@,
                    old(self).files.deep_view().len() as int,
                );
                if total <= u64::MAX {
                    total
                } else {
                    u64::MAX as int
                }
            },
    {
        let ghost all = self.files.deep_view();
        let mut acc: u64 = 0;
        let mut i: usize = 0;
        while i < self.files.len()
            invariant
                i <= self.files.len(),
                all == self.files.deep_view(),
                sizes@.len() == all.len(),
                acc as int == {
                    let partial = spec_input_sum(all, sizes@, i as int);
                    if partial <= u64::MAX {
                        partial
                    } else {
                        u64::MAX as int
                    }
                },
            decreases self.files.len() - i,
        {
            proof {
                lemma_input_sum_nonneg(all, sizes@, i as int);
            }
            let contribution = if matches!(self.files[i].role, Role::Input) {
                sizes[i]
            } else {
                0
            };
            acc = if acc <= u64::MAX - contribution {
                acc + contribution
            } else {
                u64::MAX
            };
            i += 1;
        }
        self.input_size = acc;
    }

    /// The command line this job spawns, if a tool is resolved at all.
    pub fn invocation(&self) -> (r: Option<ToolInvocation>)
        requires
            self.state == JobState::Running,
            self.wf(),
        ensures
            match r {
                Some(inv) => spec_invocation(self.source@, self.format, self.files.deep_view())
                    == Some((inv.program@, inv.args.deep_view())),
                None => spec_invocation(self.source@, self.format, self.files.deep_view()) is None,
            },
    {
        let tool = match self.format.compression_tool() {
            Some(t) => t,
            None => {
                return None;
            },
        };
        let input = if matches!(tool, CompressionTool::BitButcher) {
            match find_with_role(&self.files, Role::Temporary) {
                Some(p) => p,
                None => unreached(),
            }
        } else {
            self.canonical_input()
        };
        let output = match self.output_path() {
            Some(p) => p,
            None => unreached(),
        };
        Some(tool.build(&input, &output))
    }

    /// One observation of the running tool: on a successful exit the job
    /// proceeds; while the child lives, cancellation turns into a kill
    /// and interrupts the job; a failed exit interrupts it the same way.
    pub fn poll(&mut self, status: PollStatus, cancelled: bool) -> (r: PollAction)
        requires
            old(self).state == JobState::Running,
        ensures
            *final(self) == (ConversionJob { state: final(self).state, ..*old(self) }),
            match (status, cancelled) {
                (PollStatus::StillRunning, false) => r == PollAction::Wait && final(self).state
                    == JobState::Running,
                (PollStatus::StillRunning, true) => r == PollAction::Kill && final(self).state
                    == JobState::Interrupted,
                (PollStatus::ExitedOk, _) => r == PollAction::Proceed && final(self).state
                    == JobState::Running,
                (PollStatus::ExitedErr, _) => r == PollAction::Abort && final(self).state
                    == JobState::Interrupted,
            },
    {
        match status {
            PollStatus::StillRunning => {
                if cancelled {
                    self.state = JobState::Interrupted;
                    PollAction::Kill
                } else {
                    PollAction::Wait
                }
            },
            PollStatus::ExitedOk => PollAction::Proceed,
            PollStatus::ExitedErr => {
                self.state = JobState::Interrupted;
                PollAction::Abort
            },
        }
    }

    /// Does this job end with in-process packaging into an archive?
    pub fn needs_packaging(&self) -> (r: bool)
        ensures
            r == self.format.zip(),
    {
        self.format.zip()
    }

    /// The file the packager streams into the archive: the staged
    /// temporary if the plan made one, the first input otherwise.
    pub fn packaging_source(&self) -> (r: String)
        requires
            self.state == JobState::Running,
            self.wf(),
        ensures
            spec_packaging_source(self.files.deep_view()) == Some(r@),
    {
        match find_with_role(&self.files, Role::Temporary) {
            Some(p) => p,
            None => match find_with_role(&self.files, Role::Input) {
                Some(p) => p,
                None => unreached(),
            },
        }
    }

    /// Cancellation or a failure observed outside the poll loop: the job
    /// is interrupted.
    pub fn interrupt(&mut self)
        requires
            old(self).state == JobState::Running,
        ensures
            *final(self) == (ConversionJob { state: JobState::Interrupted, ..*old(self) }),
    {
        self.state = JobState::Interrupted;
    }

    /// The job finished its work: record the output's measured size.
    pub fn complete(&mut self, output_size: u64)
        requires
            old(self).state == JobState::Running,
        ensures
            *final(self) == (ConversionJob {
                state: JobState::Completed,
                output_size,
                ..*old(self)
            }),
    {
        self.state = JobState::Completed;
        self.output_size = output_size;
    }

    /// The paths to delete now that the job is over: every temporary;
    /// inputs only under the remove policy and only on completion; the
    /// output only after an interruption.
    pub fn cleanup(&self, remove_inputs: bool) -> (r: Vec<String>)
        requires
            self.state == JobState::Completed || self.state == JobState::Interrupted
                || self.state == JobState::Skipped,
        ensures
            r.deep_view() == spec_cleanup(
                self.files.deep_view(),
                remove_inputs,
                self.state == JobState::Interrupted,
            ),
    {
        let interrupted = matches!(self.state, JobState::Interrupted);
        cleanup_paths(&self.files, remove_inputs, interrupted)
    }
}

proof fn lemma_input_sum_nonneg(files: Seq<FileTag>, sizes: Seq<u64>, i: int)
    ensures
        spec_input_sum(files, sizes, i) >= 0,
    decreases i,
{
    if i > 0 {
        lemma_input_sum_nonneg(files, sizes, i - 1);
    }
}

proof fn lemma_first_with_role_head(files: Seq<FileTag>, role: Role)
    requires
        files.len() > 0,
        files[0].role == role,
    ensures
        first_with_role(files, role) == Some(files[0].path),
{
}

proof fn lemma_first_with_role_second(files: Seq<FileTag>, role: Role)
    requires
        files.len() > 1,
        files[1].role == role,
    ensures
        first_with_role(files, role) is Some,
{
    if files[0].role != role {
        assert(files.drop_first()[0] == files[1]);
        assert(first_with_role(files.drop_first(), role) == Some(files[1].path));
    }
}

} // verus!
