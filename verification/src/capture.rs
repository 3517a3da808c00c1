//! Capturing a full raw frame. This is very slow: one register read per half pixel.
use crate::calibration::writes;
use crate::frame::{assemble, completing_count, lemma_assemble, FrameBuffer, FRAME_SIZE};
use crate::protocol::{Command, Progress, Reply};
use crate::register::{RAW_DATA_GRAB, RAW_DATA_GRAB_STATUS};
use crate::types::SensorError;
use vstd::prelude::*;

verus! {

/// Milliseconds to wait after putting the sensor into frame capture mode.
pub const CAPTURE_SETTLE_MS: u32 = 10;

/// Bits of RAW_DATA_GRAB_STATUS of which one is set once a frame can be read.
pub const GRAB_READY_MASK: u8 = 0b1100_0000;

/// Writes that put the sensor into frame capture mode.
pub open spec fn capture_mode_writes() -> Seq<(u8, u8)> {
    seq![
        (0x7Fu8, 0x07u8),
        (0x4Cu8, 0x00u8),
        (0x7Fu8, 0x08u8),
        (0x6Au8, 0x38u8),
        (0x7Fu8, 0x00u8),
        (0x55u8, 0x04u8),
        (0x40u8, 0x80u8),
        (0x4Du8, 0x11u8),
    ]
}

/// Writes that start a frame grab.
pub open spec fn grab_start_writes() -> Seq<(u8, u8)> {
    seq![(0x7Fu8, 0x00u8), (0x58u8, 0xFFu8)]
}

/// The fixed commands before polling starts.
pub open spec fn capture_prelude() -> Seq<Command> {
    writes(capture_mode_writes()) + seq![Command::Delay { ms: CAPTURE_SETTLE_MS }] + writes(
        grab_start_writes(),
    )
}

/// Whether a read of RAW_DATA_GRAB_STATUS says that the frame can be read.
pub open spec fn grab_ready(status: u8) -> bool {
    status & GRAB_READY_MASK != 0
}

/// A status reads "ready" exactly when it is at least 0x40, that is when bit 6 or
/// bit 7 is set.
pub proof fn lemma_grab_ready(status: u8)
    ensures
        grab_ready(status) <==> status >= 0x40,
{
    assert(status & 0b1100_0000 != 0 <==> status >= 0x40) by (bit_vector);
}

/// The prelude of a capture, command by command.
pub proof fn lemma_capture_prelude_values()
    ensures
        capture_prelude() == seq![
            Command::Write { register: 0x7F, value: 0x07 },
            Command::Write { register: 0x4C, value: 0x00 },
            Command::Write { register: 0x7F, value: 0x08 },
            Command::Write { register: 0x6A, value: 0x38 },
            Command::Write { register: 0x7F, value: 0x00 },
            Command::Write { register: 0x55, value: 0x04 },
            Command::Write { register: 0x40, value: 0x80 },
            Command::Write { register: 0x4D, value: 0x11 },
            Command::Delay { ms: 10 },
            Command::Write { register: 0x7F, value: 0x00 },
            Command::Write { register: 0x58, value: 0xFF },
        ],
{
    assert(capture_prelude() =~= seq![
        Command::Write { register: 0x7F, value: 0x07 },
        Command::Write { register: 0x4C, value: 0x00 },
        Command::Write { register: 0x7F, value: 0x08 },
        Command::Write { register: 0x6A, value: 0x38 },
        Command::Write { register: 0x7F, value: 0x00 },
        Command::Write { register: 0x55, value: 0x04 },
        Command::Write { register: 0x40, value: 0x80 },
        Command::Write { register: 0x4D, value: 0x11 },
        Command::Delay { ms: 10 },
        Command::Write { register: 0x7F, value: 0x00 },
        Command::Write { register: 0x58, value: 0xFF },
    ]);
}

/// The commands of a capture that read RAW_DATA_GRAB_STATUS `polls` times,
/// wrote 0 to RAW_DATA_GRAB when `armed`, and then read RAW_DATA_GRAB `reads` times.
pub open spec fn capture_commands(polls: nat, armed: bool, reads: nat) -> Seq<Command> {
    capture_prelude() + Seq::new(polls, |i: int| Command::Read { register: RAW_DATA_GRAB_STATUS })
        + (if armed {
        seq![Command::Write { register: RAW_DATA_GRAB, value: 0 }]
    } else {
        Seq::empty()
    }) + Seq::new(reads, |i: int| Command::Read { register: RAW_DATA_GRAB })
}

/// Every status read but the last said "not ready", and the last said "ready".
pub open spec fn ready_after(statuses: Seq<u8>) -> bool {
    &&& statuses.len() > 0
    &&& grab_ready(statuses.last())
    &&& forall|i: int| 0 <= i < statuses.len() - 1 ==> !grab_ready(#[trigger] statuses[i])
}

/// No status read has said "ready".
pub open spec fn not_ready_yet(statuses: Seq<u8>) -> bool {
    forall|i: int| 0 <= i < statuses.len() ==> !grab_ready(#[trigger] statuses[i])
}

/// Bank selection during a capture: the prelude has no reads; its last write to
/// the bank-select register 0x7F (at index 9) selects bank 0 and comes just before
/// the write of 0xFF to RAW_DATA_GRAB; nothing after it writes 0x7F again.
pub proof fn lemma_capture_bank_select(polls: nat, armed: bool, reads: nat)
    ensures
        ({
            let commands = capture_commands(polls, armed, reads);
            &&& commands[9] == (Command::Write { register: 0x7F, value: 0x00 })
            &&& commands[10] == (Command::Write { register: RAW_DATA_GRAB, value: 0xFF })
            &&& forall|i: int| 0 <= i < 11 ==> !(#[trigger] commands[i] is Read)
            &&& forall|i: int|
                9 < i < commands.len() ==> !(#[trigger] commands[i] matches Command::Write {
                    register,
                    ..
                } && register == 0x7F)
        }),
{
    let prelude = capture_prelude();
    let polled = Seq::new(polls, |i: int| Command::Read { register: RAW_DATA_GRAB_STATUS });
    let arm: Seq<Command> = if armed {
        seq![Command::Write { register: RAW_DATA_GRAB, value: 0 }]
    } else {
        Seq::empty()
    };
    let read = Seq::new(reads, |i: int| Command::Read { register: RAW_DATA_GRAB });
    let commands = capture_commands(polls, armed, reads);
    assert(prelude.len() == 11);
    assert(commands == prelude + polled + arm + read);
    assert forall|i: int| 9 < i < commands.len() implies !(#[trigger] commands[i] matches Command::Write {
        register,
        ..
    } && register == 0x7F) by {
        if i < 11 {
            assert(commands[i] == prelude[i]);
        } else if i < 11 + polls {
            assert(commands[i] == polled[i - 11]);
        } else if i < 11 + polls + arm.len() {
            assert(commands[i] == arm[i - 11 - polls]);
        } else {
            assert(commands[i] == read[i - 11 - polls - arm.len()]);
        }
    }
    assert forall|i: int| 0 <= i < 11 implies !(#[trigger] commands[i] is Read) by {
        assert(commands[i] == prelude[i]);
    }
}

fn prelude_command(index: usize) -> (command: Command)
    requires
        index < 11,
    ensures
        command == capture_prelude()[index as int],
{
    let mode: [(u8, u8); 8] = [
        (0x7F, 0x07),
        (0x4C, 0x00),
        (0x7F, 0x08),
        (0x6A, 0x38),
        (0x7F, 0x00),
        (0x55, 0x04),
        (0x40, 0x80),
        (0x4D, 0x11),
    ];
    let start: [(u8, u8); 2] = [(0x7F, 0x00), (0x58, 0xFF)];
    assert(mode@ =~= capture_mode_writes());
    assert(start@ =~= grab_start_writes());
    if index < 8 {
        Command::Write { register: mode[index].0, value: mode[index].1 }
    } else if index == 8 {
        Command::Delay { ms: CAPTURE_SETTLE_MS }
    } else {
        Command::Write { register: start[index - 9].0, value: start[index - 9].1 }
    }
}

/// How far a frame capture has come.
#[derive(Debug, Clone, Copy, PartialEq, Eq, Structural)]
pub enum CaptureStage {
    /// Issuing the prelude; the index of the pending prelude command.
    Preparing(usize),
    /// Reading RAW_DATA_GRAB_STATUS until the frame can be read.
    Polling,
    /// Writing 0 to RAW_DATA_GRAB to start the read-out.
    Arming,
    /// Reading RAW_DATA_GRAB until every pixel is complete.
    Reading,
}

/// Capturing a frame as a machine.
pub struct FrameCapture {
    stage: CaptureStage,
    frame: FrameBuffer,
    statuses: Ghost<Seq<u8>>,
    data: Ghost<Seq<u8>>,
    issued: Ghost<Seq<Command>>,
}

impl FrameCapture {
    pub closed spec fn stage(&self) -> CaptureStage {
        self.stage
    }

    /// The frame assembled so far.
    pub closed spec fn frame(&self) -> FrameBuffer {
        self.frame
    }

    /// What the reads of RAW_DATA_GRAB_STATUS returned so far.
    pub closed spec fn statuses(&self) -> Seq<u8> {
        self.statuses@
    }

    /// What the reads of RAW_DATA_GRAB returned so far.
    pub closed spec fn data(&self) -> Seq<u8> {
        self.data@
    }

    /// Every command issued so far, the pending one last.
    pub closed spec fn issued(&self) -> Seq<Command> {
        self.issued@
    }

    pub closed spec fn wf(&self) -> bool {
        &&& self.frame.wf()
        &&& self.frame.pixels() == assemble(self.data@).0
        &&& self.frame.filled() == completing_count(self.data@)
        &&& completing_count(self.data@) < FRAME_SIZE
        &&& !(self.stage is Reading) ==> self.data@.len() == 0
        &&& match self.stage {
            CaptureStage::Preparing(index) => {
                &&& index < 11
                &&& self.statuses@.len() == 0
                &&& self.issued@ == capture_prelude().take(index + 1)
            },
            CaptureStage::Polling => {
                &&& not_ready_yet(self.statuses@)
                &&& self.issued@ == capture_commands(self.statuses@.len() + 1, false, 0)
            },
            CaptureStage::Arming => {
                &&& ready_after(self.statuses@)
                &&& self.issued@ == capture_commands(self.statuses@.len(), true, 0)
            },
            CaptureStage::Reading => {
                &&& ready_after(self.statuses@)
                &&& self.issued@ == capture_commands(
                    self.statuses@.len(),
                    true,
                    self.data@.len() + 1,
                )
            },
        }
    }

    /// The command that the machine waits on the reply to.
    pub open spec fn pending(&self) -> Command {
        match self.stage() {
            CaptureStage::Preparing(index) => capture_prelude()[index as int],
            CaptureStage::Polling => Command::Read { register: RAW_DATA_GRAB_STATUS },
            CaptureStage::Arming => Command::Write { register: RAW_DATA_GRAB, value: 0 },
            CaptureStage::Reading => Command::Read { register: RAW_DATA_GRAB },
        }
    }

    pub fn start() -> (progress: Progress<FrameCapture, Vec<u8>>)
        ensures
            progress matches Progress::Continue(m, command) && m.wf() && m.stage()
                == CaptureStage::Preparing(0) && command == capture_prelude()[0] && m.issued()
                == seq![command] && m.statuses().len() == 0 && m.data().len() == 0,
    {
        let frame = FrameBuffer::new();
        let command = prelude_command(0);
        let ghost issued = seq![command];
        proof {
            lemma_assemble(Seq::empty());
            assert(issued =~= capture_prelude().take(1));
        }
        Progress::Continue(
            FrameCapture {
                stage: CaptureStage::Preparing(0),
                frame,
                statuses: Ghost(Seq::empty()),
                data: Ghost(Seq::empty()),
                issued: Ghost(issued),
            },
            command,
        )
    }

    /// Takes the reply to the pending command. A failed transfer ends the capture
    /// with that SPI error. Otherwise: the prelude is issued in order; the status
    /// register is read again until one of its top two bits is set; the read-out
    /// is started with a write of 0 to RAW_DATA_GRAB; then RAW_DATA_GRAB is read
    /// until the bytes read from it hold FRAME_SIZE completing bytes, and the frame
    /// they assemble is handed out. Every command issued is recorded in `issued`.
    pub fn resume(self, reply: Reply) -> (progress: Progress<FrameCapture, Vec<u8>>)
        requires
            self.wf(),
            reply.answers(self.pending()),
        ensures
            match reply {
                Reply::Failed(kind) => progress == Progress::<FrameCapture, Vec<u8>>::Finish(
                    Err(SensorError::Spi(kind)),
                ),
                _ => match self.stage() {
                    CaptureStage::Preparing(index) => progress matches Progress::Continue(
                        m,
                        command,
                    ) && m.wf() && m.issued() == self.issued().push(command) && m.statuses()
                        == self.statuses() && m.data() == self.data() && if index + 1 < 11 {
                        m.stage() == CaptureStage::Preparing((index + 1) as usize) && command
                            == capture_prelude()[index + 1]
                    } else {
                        m.stage() == CaptureStage::Polling && command == (Command::Read {
                            register: RAW_DATA_GRAB_STATUS,
                        })
                    },
                    CaptureStage::Polling => reply matches Reply::Byte(status) && progress matches Progress::Continue(
                        m,
                        command,
                    ) && m.wf() && m.issued() == self.issued().push(command) && m.statuses()
                        == self.statuses().push(status) && m.data() == self.data() && if grab_ready(
                        status,
                    ) {
                        m.stage() == CaptureStage::Arming && command == (Command::Write {
                            register: RAW_DATA_GRAB,
                            value: 0,
                        })
                    } else {
                        m.stage() == CaptureStage::Polling && command == (Command::Read {
                            register: RAW_DATA_GRAB_STATUS,
                        })
                    },
                    CaptureStage::Arming => progress matches Progress::Continue(m, command)
                        && m.wf() && m.stage() == CaptureStage::Reading && m.issued()
                        == self.issued().push(command) && m.statuses() == self.statuses()
                        && m.data().len() == 0 && m.frame().pixels() == Seq::new(
                        FRAME_SIZE as nat,
                        |i: int| 0u8,
                    ) && m.frame().filled() == 0 && command == (Command::Read {
                        register: RAW_DATA_GRAB,
                    }),
                    CaptureStage::Reading => reply matches Reply::Byte(value) && {
                        let data = self.data().push(value);
                        if completing_count(data) == FRAME_SIZE {
                            &&& progress matches Progress::Finish(Ok(frame)) && frame@ == assemble(
                                data,
                            ).0 && frame@.len() == FRAME_SIZE
                            &&& ready_after(self.statuses())
                            &&& completing_count(self.data()) == FRAME_SIZE - 1
                            &&& self.issued() == capture_commands(
                                self.statuses().len(),
                                true,
                                data.len(),
                            )
                        } else {
                            progress matches Progress::Continue(m, command) && m.wf() && m.stage()
                                == CaptureStage::Reading && m.issued() == self.issued().push(
                                command,
                            ) && m.statuses() == self.statuses() && m.data() == data
                                && m.frame().pixels() == assemble(data).0 && m.frame().filled()
                                == completing_count(data) && command == (Command::Read {
                                register: RAW_DATA_GRAB,
                            })
                        }
                    },
                },
            },
    {
        if let Reply::Failed(kind) = reply {
            return Progress::Finish(Err(SensorError::Spi(kind)));
        }
        let FrameCapture { stage, mut frame, statuses, data, issued } = self;
        proof {
            assert(capture_prelude().len() == 11);
        }
        match stage {
            CaptureStage::Preparing(index) => {
                if index + 1 < 11 {
                    let command = prelude_command(index + 1);
                    let ghost next_issued = issued@.push(command);
                    assert(next_issued =~= capture_prelude().take(index + 2));
                    Progress::Continue(
                        FrameCapture {
                            stage: CaptureStage::Preparing(index + 1),
                            frame,
                            statuses,
                            data,
                            issued: Ghost(next_issued),
                        },
                        command,
                    )
                } else {
                    let command = Command::Read { register: RAW_DATA_GRAB_STATUS };
                    let ghost next_issued = issued@.push(command);
                    assert(next_issued =~= capture_commands(1, false, 0));
                    Progress::Continue(
                        FrameCapture {
                            stage: CaptureStage::Polling,
                            frame,
                            statuses,
                            data,
                            issued: Ghost(next_issued),
                        },
                        command,
                    )
                }
            },
            CaptureStage::Polling => {
                let status = match reply {
                    Reply::Byte(status) => status,
                    _ => vstd::pervasive::unreached(),
                };
                let ghost next_statuses = statuses@.push(status);
                if status & GRAB_READY_MASK == 0 {
                    let command = Command::Read { register: RAW_DATA_GRAB_STATUS };
                    let ghost next_issued = issued@.push(command);
                    assert(next_issued =~= capture_commands(next_statuses.len() + 1, false, 0));
                    assert(not_ready_yet(next_statuses));
                    Progress::Continue(
                        FrameCapture {
                            stage: CaptureStage::Polling,
                            frame,
                            statuses: Ghost(next_statuses),
                            data,
                            issued: Ghost(next_issued),
                        },
                        command,
                    )
                } else {
                    let command = Command::Write { register: RAW_DATA_GRAB, value: 0 };
                    let ghost next_issued = issued@.push(command);
                    assert(next_issued =~= capture_commands(next_statuses.len(), true, 0));
                    assert(ready_after(next_statuses));
                    Progress::Continue(
                        FrameCapture {
                            stage: CaptureStage::Arming,
                            frame,
                            statuses: Ghost(next_statuses),
                            data,
                            issued: Ghost(next_issued),
                        },
                        command,
                    )
                }
            },
            CaptureStage::Arming => {
                let command = Command::Read { register: RAW_DATA_GRAB };
                let ghost next_issued = issued@.push(command);
                assert(next_issued =~= capture_commands(statuses@.len(), true, 1));
                Progress::Continue(
                    FrameCapture {
                        stage: CaptureStage::Reading,
                        frame,
                        statuses,
                        data,
                        issued: Ghost(next_issued),
                    },
                    command,
                )
            },
            CaptureStage::Reading => {
                let value = match reply {
                    Reply::Byte(value) => value,
                    _ => vstd::pervasive::unreached(),
                };
                let ghost next_data = data@.push(value);
                proof {
                    assert(next_data.drop_last() =~= data@);
                    lemma_assemble(data@);
                    lemma_assemble(next_data);
                }
                frame.feed(value);
                if frame.is_complete() {
                    Progress::Finish(Ok(frame.into_pixels()))
                } else {
                    let command = Command::Read { register: RAW_DATA_GRAB };
                    let ghost next_issued = issued@.push(command);
                    assert(next_issued =~= capture_commands(
                        statuses@.len(),
                        true,
                        next_data.len() + 1,
                    ));
                    Progress::Continue(
                        FrameCapture {
                            stage: CaptureStage::Reading,
                            frame,
                            statuses,
                            data: Ghost(next_data),
                            issued: Ghost(next_issued),
                        },
                        command,
                    )
                }
            },
        }
    }
}

} // verus!
