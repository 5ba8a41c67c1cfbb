use vstd::prelude::*;
use vstd::string::StringExecFns;

verus! {

/// Which of the two transforms a run performs.
#[derive(Clone, Copy, Debug, PartialEq, Eq, Structural)]
pub enum Operation {
    Protect,
    Reveal,
}

/// The coarse states of a run.
#[derive(Clone, Copy, Debug, PartialEq, Eq, Structural)]
pub enum Phase {
    Idle,
    Preparing,
    Transforming,
    Finalizing,
    Succeeded,
    Failed,
    Interrupted,
}

/// Where exactly a run stands: the piece of outside work it is waiting for, or
/// the state it has come to rest in.
#[derive(Clone, Copy, Debug, PartialEq, Eq, Structural)]
pub enum Stage {
    Idle,
    /// The source directory is being packed into the temporary artifact.
    Packing,
    /// The input is being encrypted into the output.
    Sealing,
    /// The input is being decrypted into the temporary artifact.
    Opening,
    /// The temporary artifact is being unpacked into the output.
    Unpacking,
    /// The temporary artifact, no archive, is being moved to the output.
    Moving,
    /// The temporary artifact is being erased.
    ErasingTemp,
    /// The source is being erased.
    ErasingSource,
    Succeeded,
    Failed,
    Interrupted,
}

/// What the outside world reports to the run.
#[derive(Clone, Copy, Debug, PartialEq, Eq, Structural)]
pub enum Event {
    /// The caller asks the run to begin.
    Start,
    /// The work last asked for is done.
    Done,
    /// The work last asked for failed.
    Error,
    /// The process was asked to terminate.
    Interrupt,
}

/// The outside work the run asks for next.
#[derive(Clone, Copy, Debug, PartialEq, Eq, Structural)]
pub enum Action {
    /// Nothing to do.
    Nothing,
    /// Publish the temporary path, then pack the source directory into it.
    PublishTempAndPack,
    /// Encrypt the source file into the output.
    SealSource,
    /// Encrypt the temporary artifact into the output.
    SealTemp,
    /// Publish the temporary path, then decrypt the source into it.
    PublishTempAndOpen,
    /// Unpack the temporary artifact into the output.
    Unpack,
    /// Move the temporary artifact to the output path.
    MoveTempToOutput,
    /// Erase the temporary artifact and clear the published path.
    EraseTemp,
    /// Erase the source, recursively where it is a directory.
    EraseSource,
    /// Erase the temporary artifact, then terminate the process.
    EraseTempAndExit,
    /// Terminate the process.
    Exit,
}

/// One run of the pipeline.
#[derive(Clone, Copy, Debug, PartialEq, Eq, Structural)]
pub struct Run {
    pub operation: Operation,
    /// The source is a directory.
    pub source_is_dir: bool,
    /// Source path and output path differ.
    pub paths_differ: bool,
    pub stage: Stage,
    /// The temporary path is published and may hold data.
    pub temp_published: bool,
    /// The output has been written in full.
    pub output_written: bool,
}

/// The run and the action that a step gives.
#[derive(Clone, Copy, Debug, PartialEq, Eq, Structural)]
pub struct Transition {
    pub next: Run,
    pub action: Action,
}

impl Stage {
    /// The coarse state that a stage belongs to.
    pub open spec fn phase_spec(self) -> Phase {
        match self {
            Stage::Idle => Phase::Idle,
            Stage::Packing => Phase::Preparing,
            Stage::Sealing => Phase::Transforming,
            Stage::Opening => Phase::Transforming,
            Stage::Unpacking => Phase::Finalizing,
            Stage::Moving => Phase::Finalizing,
            Stage::ErasingTemp => Phase::Finalizing,
            Stage::ErasingSource => Phase::Finalizing,
            Stage::Succeeded => Phase::Succeeded,
            Stage::Failed => Phase::Failed,
            Stage::Interrupted => Phase::Interrupted,
        }
    }

    /// The run has come to rest.
    pub open spec fn is_terminal(self) -> bool {
        self == Stage::Succeeded || self == Stage::Failed || self == Stage::Interrupted
    }

    /// The run is under way: neither idle nor at rest.
    pub open spec fn is_active(self) -> bool {
        self != Stage::Idle && !self.is_terminal()
    }

    /// An upper bound on the pieces of outside work still to come.
    pub open spec fn steps_left(self) -> nat {
        match self {
            Stage::Idle => 6,
            Stage::Packing => 5,
            Stage::Opening => 5,
            Stage::Sealing => 4,
            Stage::Unpacking => 4,
            Stage::Moving => 3,
            Stage::ErasingTemp => 2,
            Stage::ErasingSource => 1,
            Stage::Succeeded => 0,
            Stage::Failed => 0,
            Stage::Interrupted => 0,
        }
    }

    pub fn phase(&self) -> (p: Phase)
        ensures
            p == self.phase_spec(),
    {
        match self {
            Stage::Idle => Phase::Idle,
            Stage::Packing => Phase::Preparing,
            Stage::Sealing | Stage::Opening => Phase::Transforming,
            Stage::Unpacking | Stage::Moving | Stage::ErasingTemp | Stage::ErasingSource => {
                Phase::Finalizing
            },
            Stage::Succeeded => Phase::Succeeded,
            Stage::Failed => Phase::Failed,
            Stage::Interrupted => Phase::Interrupted,
        }
    }
}

impl Run {
    /// What holds of every run that began idle and went by steps: the
    /// temporary path is published exactly while a stage may still use it, a
    /// run at rest has erased it, the source is erased only once the output is
    /// written and lies elsewhere, and success means the output is written.
    pub open spec fn wf(self) -> bool {
        match self.stage {
            Stage::Idle => !self.temp_published && !self.output_written,
            Stage::Packing => self.operation == Operation::Protect && self.source_is_dir
                && self.temp_published && !self.output_written,
            Stage::Sealing => self.operation == Operation::Protect && self.temp_published
                == self.source_is_dir && !self.output_written,
            Stage::Opening => self.operation == Operation::Reveal && self.temp_published
                && !self.output_written,
            Stage::Unpacking => self.operation == Operation::Reveal && self.temp_published
                && !self.output_written,
            Stage::Moving => self.operation == Operation::Reveal && self.temp_published
                && !self.output_written,
            Stage::ErasingTemp => self.temp_published,
            Stage::ErasingSource => !self.temp_published && self.output_written
                && self.paths_differ,
            Stage::Succeeded => !self.temp_published && self.output_written,
            Stage::Failed => !self.temp_published && !self.output_written,
            Stage::Interrupted => true,
        }
    }

    /// Where a run goes once the output is written and no temporary artifact
    /// is left: on to erasing the source where it lies elsewhere, else to rest.
    pub open spec fn after_cleanup(self) -> Transition {
        if !self.output_written {
            Transition { next: Run { stage: Stage::Failed, ..self }, action: Action::Nothing }
        } else if self.paths_differ {
            Transition {
                next: Run { stage: Stage::ErasingSource, ..self },
                action: Action::EraseSource,
            }
        } else {
            Transition { next: Run { stage: Stage::Succeeded, ..self }, action: Action::Nothing }
        }
    }

    /// Where a run goes after its transform: to erasing the temporary artifact
    /// where one is published, else straight on.
    pub open spec fn after_transform(self) -> Transition {
        if self.temp_published {
            Transition {
                next: Run { stage: Stage::ErasingTemp, ..self },
                action: Action::EraseTemp,
            }
        } else {
            self.after_cleanup()
        }
    }

    /// The step of the state machine: the next run and the action asked for,
    /// for each stage and event. An event that a stage does not expect leaves
    /// the run as it is and asks for nothing. A failed erasure counts as done:
    /// it is reported, not acted on.
    pub open spec fn step_spec(self, event: Event) -> Transition {
        match (self.stage, event) {
            (Stage::Idle, Event::Interrupt) => Transition { next: self, action: Action::Exit },
            (Stage::Succeeded, Event::Interrupt) => Transition { next: self, action: Action::Exit },
            (Stage::Failed, Event::Interrupt) => Transition { next: self, action: Action::Exit },
            (Stage::Interrupted, Event::Interrupt) => Transition {
                next: self,
                action: Action::Exit,
            },
            (_, Event::Interrupt) => Transition {
                next: Run { stage: Stage::Interrupted, ..self },
                action: if self.temp_published {
                    Action::EraseTempAndExit
                } else {
                    Action::Exit
                },
            },
            (Stage::Idle, Event::Start) => match self.operation {
                Operation::Protect => if self.source_is_dir {
                    Transition {
                        next: Run { stage: Stage::Packing, temp_published: true, ..self },
                        action: Action::PublishTempAndPack,
                    }
                } else {
                    Transition {
                        next: Run { stage: Stage::Sealing, ..self },
                        action: Action::SealSource,
                    }
                },
                Operation::Reveal => Transition {
                    next: Run { stage: Stage::Opening, temp_published: true, ..self },
                    action: Action::PublishTempAndOpen,
                },
            },
            (Stage::Packing, Event::Done) => Transition {
                next: Run { stage: Stage::Sealing, ..self },
                action: Action::SealTemp,
            },
            (Stage::Packing, Event::Error) => self.after_transform(),
            (Stage::Sealing, Event::Done) => Run { output_written: true, ..self }.after_transform(),
            (Stage::Sealing, Event::Error) => self.after_transform(),
            (Stage::Opening, Event::Done) => Transition {
                next: Run { stage: Stage::Unpacking, ..self },
                action: Action::Unpack,
            },
            (Stage::Opening, Event::Error) => self.after_transform(),
            (Stage::Unpacking, Event::Done) => Run {
                output_written: true,
                ..self
            }.after_transform(),
            (Stage::Unpacking, Event::Error) => Transition {
                next: Run { stage: Stage::Moving, ..self },
                action: Action::MoveTempToOutput,
            },
            (Stage::Moving, Event::Done) => Run { output_written: true, ..self }.after_transform(),
            (Stage::Moving, Event::Error) => self.after_transform(),
            (Stage::ErasingTemp, Event::Done) => Run {
                temp_published: false,
                ..self
            }.after_cleanup(),
            (Stage::ErasingTemp, Event::Error) => Run {
                temp_published: false,
                ..self
            }.after_cleanup(),
            (Stage::ErasingSource, Event::Done) => Transition {
                next: Run { stage: Stage::Succeeded, ..self },
                action: Action::Nothing,
            },
            (Stage::ErasingSource, Event::Error) => Transition {
                next: Run { stage: Stage::Succeeded, ..self },
                action: Action::Nothing,
            },
            _ => Transition { next: self, action: Action::Nothing },
        }
    }

    /// A run that has not begun.
    pub fn new(operation: Operation, source_is_dir: bool, paths_differ: bool) -> (run: Run)
        ensures
            run == (Run {
                operation,
                source_is_dir,
                paths_differ,
                stage: Stage::Idle,
                temp_published: false,
                output_written: false,
            }),
            run.wf(),
    {
        Run {
            operation,
            source_is_dir,
            paths_differ,
            stage: Stage::Idle,
            temp_published: false,
            output_written: false,
        }
    }

    fn after_cleanup_exec(self) -> (t: Transition)
        ensures
            t == self.after_cleanup(),
    {
        if !self.output_written {
            Transition { next: Run { stage: Stage::Failed, ..self }, action: Action::Nothing }
        } else if self.paths_differ {
            Transition {
                next: Run { stage: Stage::ErasingSource, ..self },
                action: Action::EraseSource,
            }
        } else {
            Transition { next: Run { stage: Stage::Succeeded, ..self }, action: Action::Nothing }
        }
    }

    fn after_transform_exec(self) -> (t: Transition)
        ensures
            t == self.after_transform(),
    {
        if self.temp_published {
            Transition {
                next: Run { stage: Stage::ErasingTemp, ..self },
                action: Action::EraseTemp,
            }
        } else {
            self.after_cleanup_exec()
        }
    }

    /// Takes one event and gives the next run and the action to perform. The
    /// run keeps its invariant; an interrupt of a run under way ends it and
    /// asks for the erasure of the temporary artifact where one is published;
    /// the source is erased only when the output is written and lies
    /// elsewhere; and every step that is not an interrupt brings the run
    /// closer to rest, so nothing is tried twice.
    pub fn step(self, event: Event) -> (t: Transition)
        ensures
            t == self.step_spec(event),
            self.wf() ==> t.next.wf(),
            event == Event::Interrupt && self.stage.is_active() ==> t.next.stage
                == Stage::Interrupted && t.action == (if self.temp_published {
                Action::EraseTempAndExit
            } else {
                Action::Exit
            }),
            self.wf() && t.action == Action::EraseSource ==> t.next.output_written
                && t.next.paths_differ && !t.next.temp_published,
            self.stage.is_terminal() ==> t.next == self,
            t.next != self ==> t.next.stage.steps_left() < self.stage.steps_left(),
    {
        match (self.stage, event) {
            (Stage::Idle, Event::Interrupt)
            | (Stage::Succeeded, Event::Interrupt)
            | (Stage::Failed, Event::Interrupt)
            | (Stage::Interrupted, Event::Interrupt) => Transition {
                next: self,
                action: Action::Exit,
            },
            (_, Event::Interrupt) => {
                let action = if self.temp_published {
                    Action::EraseTempAndExit
                } else {
                    Action::Exit
                };
                Transition { next: Run { stage: Stage::Interrupted, ..self }, action }
            },
            (Stage::Idle, Event::Start) => match self.operation {
                Operation::Protect => {
                    if self.source_is_dir {
                        Transition {
                            next: Run { stage: Stage::Packing, temp_published: true, ..self },
                            action: Action::PublishTempAndPack,
                        }
                    } else {
                        Transition {
                            next: Run { stage: Stage::Sealing, ..self },
                            action: Action::SealSource,
                        }
                    }
                },
                Operation::Reveal => Transition {
                    next: Run { stage: Stage::Opening, temp_published: true, ..self },
                    action: Action::PublishTempAndOpen,
                },
            },
            (Stage::Packing, Event::Done) => Transition {
                next: Run { stage: Stage::Sealing, ..self },
                action: Action::SealTemp,
            },
            (Stage::Opening, Event::Done) => Transition {
                next: Run { stage: Stage::Unpacking, ..self },
                action: Action::Unpack,
            },
            (Stage::Unpacking, Event::Error) => Transition {
                next: Run { stage: Stage::Moving, ..self },
                action: Action::MoveTempToOutput,
            },
            (Stage::Sealing, Event::Done)
            | (Stage::Unpacking, Event::Done)
            | (Stage::Moving, Event::Done) => {
                let written = Run { output_written: true, ..self };
                written.after_transform_exec()
            },
            (Stage::Packing, Event::Error)
            | (Stage::Sealing, Event::Error)
            | (Stage::Opening, Event::Error)
            | (Stage::Moving, Event::Error) => self.after_transform_exec(),
            (Stage::ErasingTemp, Event::Done) | (Stage::ErasingTemp, Event::Error) => {
                let cleared = Run { temp_published: false, ..self };
                cleared.after_cleanup_exec()
            },
            (Stage::ErasingSource, Event::Done) | (Stage::ErasingSource, Event::Error) => {
                Transition { next: Run { stage: Stage::Succeeded, ..self }, action: Action::Nothing }
            },
            _ => Transition { next: self, action: Action::Nothing },
        }
    }
}

/// The output path taken where the caller names none: the source path with a
/// fixed suffix, one for each operation.
pub open spec fn default_output_spec(input: Seq<char>, operation: Operation) -> Seq<char> {
    match operation {
        Operation::Protect => input + "_encrypted"@,
        Operation::Reveal => input + "_decrypted.txt"@,
    }
}

/// Builds the output path for a caller who named none. The suffix of a
/// revealed output is the same whatever the payload turns out to be.
pub fn default_output(input: &str, operation: Operation) -> (path: String)
    ensures
        path@ == default_output_spec(input@, operation),
{
    let base = String::from_str(input);
    match operation {
        Operation::Protect => base.concat("_encrypted"),
        Operation::Reveal => base.concat("_decrypted.txt"),
    }
}

/// An interrupt of a run under way, whatever its stage, ends the run as
/// interrupted and asks for the erasure of the temporary artifact where one is
/// published; an idle run or one at rest is left as it is.
pub proof fn lemma_interrupt(run: Run)
    ensures
        run.stage.is_active() ==> run.step_spec(Event::Interrupt).next.stage == Stage::Interrupted,
        run.stage.is_active() && run.temp_published ==> run.step_spec(Event::Interrupt).action
            == Action::EraseTempAndExit,
        !run.stage.is_active() ==> run.step_spec(Event::Interrupt).next == run,
{
}

/// A run that has come to rest as succeeded or failed holds no published
/// temporary path: on every way there the temporary artifact was erased.
pub proof fn lemma_rest_is_clean(run: Run, event: Event)
    requires
        run.wf(),
    ensures
        run.step_spec(event).next.wf(),
        run.step_spec(event).next.stage == Stage::Succeeded ==> !run.step_spec(
            event,
        ).next.temp_published && run.step_spec(event).next.output_written,
        run.step_spec(event).next.stage == Stage::Failed ==> !run.step_spec(
            event,
        ).next.temp_published && !run.step_spec(event).next.output_written,
{
}

/// The source is erased only after the output is written, only where it lies
/// elsewhere, and only once the temporary artifact is gone.
pub proof fn lemma_source_outlives_output(run: Run, event: Event)
    requires
        run.wf(),
        run.step_spec(event).action == Action::EraseSource,
    ensures
        run.step_spec(event).next.output_written,
        run.paths_differ,
        !run.step_spec(event).next.temp_published,
{
}

/// Every step that changes the run brings it closer to rest: no stage is
/// entered twice, so no work is ever retried.
pub proof fn lemma_progress(run: Run, event: Event)
    ensures
        run.step_spec(event).next != run ==> run.step_spec(event).next.stage.steps_left()
            < run.stage.steps_left(),
{
}

} // verus!
