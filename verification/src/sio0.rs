//! Items related to the serial port used by the controllers and memory cards.
use vstd::prelude::*;

verus! {

/// An event of the serial port state machine.
#[derive(Debug, Clone, Copy, PartialEq, Eq, Structural)]
pub enum Event {
    /// Check whether a transfer should start.
    Update,
    /// Transfer a byte.
    Transfer,
    /// The device starts acknowledging a byte.
    StartAck,
    /// The device stops acknowledging a byte.
    EndAck,
}

/// A command a joypad takes.
#[derive(Debug, Clone, Copy, PartialEq, Eq, Structural)]
pub enum JoypadCommand {
    /// Read the buttons (and sticks); `change_mode` also switches the configuration mode.
    Read { change_mode: bool },
    /// Set the LED, that is the analog mode.
    SetLed,
    /// Get the LED, that is the analog mode.
    GetLed,
}

/// The position of an analog stick.
#[derive(Debug, Clone, Copy, Default, PartialEq, Eq, Structural)]
pub struct AnalogInput {
    pub analog_x: u8,
    pub analog_y: u8,
}

/// The inputs of a joypad: its buttons, one bit each (set when pressed), and its sticks.
#[derive(Debug, Clone, Copy, Default, PartialEq, Eq, Structural)]
pub struct Joypad {
    pub digital_input: u16,
    pub analog_left: AnalogInput,
    pub analog_right: AnalogInput,
}

/// The registers of the serial port: the status and control flags the state machine reads and
/// writes, and the bytes to send and received.
#[derive(Debug, Clone, Copy, Default, PartialEq, Eq, Structural)]
pub struct Registers {
    /// Status: a byte can be written to send.
    pub tx_ready: bool,
    /// Status: a received byte can be read.
    pub rx_ready: bool,
    /// Status: the last byte was sent.
    pub tx_finished: bool,
    /// Status: an interrupt is requested.
    pub interrupt_request: bool,
    /// Status: the device acknowledges, ready for the next byte.
    pub device_ready_to_receive: bool,
    /// Control: acknowledge the interrupt.
    pub acknowledge: bool,
    /// Control: a device is selected.
    pub selected: bool,
    /// Control: sending is enabled.
    pub tx_enable: bool,
    /// Control: the second port is selected.
    pub port_select: bool,
    /// Control: an acknowledge of the device raises an interrupt.
    pub device_ready_to_receive_interrupt_enable: bool,
    /// The byte to send, if any.
    pub tx: Option<u8>,
    /// The byte received, if any.
    pub rx: Option<u8>,
    /// The mode register, as written.
    pub mode: u16,
}

/// `weight` where `flag` holds, else zero.
pub open spec fn flag_value(flag: bool, weight: u32) -> u32 {
    if flag {
        weight
    } else {
        0
    }
}

fn flag(value: bool, weight: u32) -> (r: u32)
    ensures
        r == flag_value(value, weight),
{
    if value {
        weight
    } else {
        0
    }
}

impl Registers {
    /// The status register: bit 0 ready to send, bit 1 a byte received, bit 2 sending finished,
    /// bit 7 the device acknowledges, bit 9 an interrupt is requested.
    pub open spec fn spec_status_bits(self) -> u32 {
        (flag_value(self.tx_ready, 0x1) + flag_value(self.rx_ready, 0x2) + flag_value(
            self.tx_finished,
            0x4,
        ) + flag_value(self.device_ready_to_receive, 0x80) + flag_value(
            self.interrupt_request,
            0x200,
        )) as u32
    }

    /// Returns the status register.
    pub fn status_bits(&self) -> (r: u32)
        ensures
            r == self.spec_status_bits(),
    {
        flag(self.tx_ready, 0x1) + flag(self.rx_ready, 0x2) + flag(self.tx_finished, 0x4) + flag(
            self.device_ready_to_receive,
            0x80,
        ) + flag(self.interrupt_request, 0x200)
    }

    /// The control register: bit 0 sending enabled, bit 1 a device selected, bit 4 acknowledge,
    /// bit 12 the acknowledge interrupt enabled, bit 13 the second port selected.
    pub open spec fn spec_control_bits(self) -> u16 {
        (flag_value(self.tx_enable, 0x1) + flag_value(self.selected, 0x2) + flag_value(
            self.acknowledge,
            0x10,
        ) + flag_value(self.device_ready_to_receive_interrupt_enable, 0x1000) + flag_value(
            self.port_select,
            0x2000,
        )) as u16
    }

    /// Returns the control register.
    pub fn control_bits(&self) -> (r: u16)
        ensures
            r == self.spec_control_bits(),
    {
        (flag(self.tx_enable, 0x1) + flag(self.selected, 0x2) + flag(self.acknowledge, 0x10) + flag(
            self.device_ready_to_receive_interrupt_enable,
            0x1000,
        ) + flag(self.port_select, 0x2000)) as u16
    }

    /// These registers with the control flags taken from the bits of the control register.
    pub open spec fn spec_with_control_bits(self, bits: u16) -> Registers {
        Registers {
            tx_enable: (bits >> 0u16) & 1 == 1,
            selected: (bits >> 1u16) & 1 == 1,
            acknowledge: (bits >> 4u16) & 1 == 1,
            device_ready_to_receive_interrupt_enable: (bits >> 12u16) & 1 == 1,
            port_select: (bits >> 13u16) & 1 == 1,
            ..self
        }
    }

    /// Sets the control flags from the bits of the control register.
    pub fn set_control_bits(&mut self, bits: u16)
        ensures
            *final(self) == old(self).spec_with_control_bits(bits),
    {
        self.tx_enable = (bits >> 0u16) & 1 == 1;
        self.selected = (bits >> 1u16) & 1 == 1;
        self.acknowledge = (bits >> 4u16) & 1 == 1;
        self.device_ready_to_receive_interrupt_enable = (bits >> 12u16) & 1 == 1;
        self.port_select = (bits >> 13u16) & 1 == 1;
    }

    /// Takes the received byte: returns it, or `0xFF` if there is none, and leaves none.
    pub fn read_rx(&mut self) -> (r: u8)
        ensures
            r == match old(self).rx {
                Some(b) => b,
                None => 0xFFu8,
            },
            *final(self) == (Registers { rx: None, rx_ready: false, ..*old(self) }),
    {
        let r = match self.rx {
            Some(b) => b,
            None => 0xFF,
        };
        self.rx = None;
        self.rx_ready = false;
        r
    }
}

/// The state of a transfer.
#[derive(Debug, Clone, Copy, PartialEq, Eq, Structural)]
pub enum State {
    /// No transfer: the next byte addresses a device.
    Idle,
    /// A joypad was addressed: the next byte is its command.
    JoypadStart,
    /// A joypad command is under way, at the given byte.
    JoypadTransfer { command: JoypadCommand, stage: u8 },
}

/// An event to schedule after a number of cycles.
#[derive(Debug, Clone, Copy, PartialEq, Eq, Structural)]
pub struct Schedule {
    pub event: Event,
    pub delay: u64,
}

/// What an update of the serial port asks of the rest of the machine.
#[derive(Debug, Clone, Copy, PartialEq, Eq, Structural)]
pub struct Action {
    /// An event to schedule, after the given cycles.
    pub schedule: Option<Schedule>,
    /// Whether to request the controller and memory card interrupt.
    pub request_interrupt: bool,
}

/// The cycles between the start of a transfer and its byte arriving.
pub const TRANSFER_DELAY: u64 = 46 * crate::CYCLES_MICROS;

/// The cycles between a byte arriving and the device acknowledging it.
pub const START_ACK_DELAY: u64 = 3 * crate::CYCLES_MICROS;

/// The cycles a device acknowledges for.
pub const END_ACK_DELAY: u64 = 2 * crate::CYCLES_MICROS;

/// The serial port state machine and the joypad connected to it.
#[derive(Debug, Clone, Copy)]
pub struct Sio0 {
    state: State,
    in_progress: bool,
    joypad: Joypad,
    analog_mode: bool,
    config_mode: bool,
}

/// The registers with the status flags updated from the bytes and the transfer in progress.
pub open spec fn status_updated(regs: Registers, in_progress: bool) -> Registers {
    Registers {
        tx_ready: regs.tx is None,
        rx_ready: regs.rx is Some,
        tx_finished: regs.tx is None && !in_progress,
        ..regs
    }
}

/// The registers with the interrupt acknowledged, if the control asks for it.
pub open spec fn acknowledged(regs: Registers) -> Registers {
    if regs.acknowledge {
        Registers { acknowledge: false, interrupt_request: false, ..regs }
    } else {
        regs
    }
}

/// The byte a joypad answers with its ID: `0xF3` in configuration mode, `0x73` in analog mode,
/// else `0x41`.
pub open spec fn joypad_id(config_mode: bool, analog_mode: bool) -> u8 {
    if config_mode {
        0xF3
    } else if analog_mode {
        0x73
    } else {
        0x41
    }
}

/// The joypad command with the given code, if any.
pub open spec fn spec_joypad_command(code: u8) -> Option<JoypadCommand> {
    if code == 0x42 {
        Some(JoypadCommand::Read { change_mode: false })
    } else if code == 0x43 {
        Some(JoypadCommand::Read { change_mode: true })
    } else if code == 0x44 {
        Some(JoypadCommand::SetLed)
    } else if code == 0x45 {
        Some(JoypadCommand::GetLed)
    } else {
        None
    }
}

/// An action that schedules `event` after `delay`, raising no interrupt.
pub open spec fn schedule_only(event: Event, delay: u64) -> Action {
    Action { schedule: Some(Schedule { event, delay }), request_interrupt: false }
}

/// An action that asks nothing.
pub open spec fn no_action() -> Action {
    Action { schedule: None, request_interrupt: false }
}

/// Refreshes the status flags from the bytes and the transfer in progress.
fn refresh_status(regs: &mut Registers, in_progress: bool)
    ensures
        *final(regs) == status_updated(*old(regs), in_progress),
{
    regs.tx_ready = regs.tx.is_none();
    regs.rx_ready = regs.rx.is_some();
    regs.tx_finished = regs.tx.is_none() && !in_progress;
}

/// Refreshes the status flags and acknowledges a pending interrupt if the control asks for it.
fn prepare(regs: &mut Registers, in_progress: bool)
    ensures
        *final(regs) == acknowledged(status_updated(*old(regs), in_progress)),
{
    refresh_status(regs, in_progress);
    if regs.acknowledge {
        regs.acknowledge = false;
        regs.interrupt_request = false;
    }
}

impl Sio0 {
    /// The stage of a joypad transfer is at most 6.
    #[verifier::type_invariant]
    spec fn inv(self) -> bool {
        match self.state {
            State::JoypadTransfer { stage, .. } => stage <= 6,
            _ => true,
        }
    }

    /// The state of the transfer.
    pub closed spec fn spec_state(self) -> State {
        self.state
    }

    /// Whether a byte is under way.
    pub closed spec fn spec_in_progress(self) -> bool {
        self.in_progress
    }

    /// The joypad connected.
    pub closed spec fn spec_joypad(self) -> Joypad {
        self.joypad
    }

    /// Whether the joypad is in analog mode.
    pub closed spec fn spec_analog_mode(self) -> bool {
        self.analog_mode
    }

    /// Whether the joypad is in configuration mode.
    pub closed spec fn spec_config_mode(self) -> bool {
        self.config_mode
    }

    /// An idle serial port with a joypad whose buttons are all released.
    pub fn new() -> (r: Self)
        ensures
            r.spec_state() == State::Idle,
            !r.spec_in_progress(),
            r.spec_joypad() == (Joypad {
                digital_input: 0,
                analog_left: AnalogInput { analog_x: 0, analog_y: 0 },
                analog_right: AnalogInput { analog_x: 0, analog_y: 0 },
            }),
            !r.spec_analog_mode(),
            !r.spec_config_mode(),
    {
        Sio0 {
            state: State::Idle,
            in_progress: false,
            joypad: Joypad {
                digital_input: 0,
                analog_left: AnalogInput { analog_x: 0, analog_y: 0 },
                analog_right: AnalogInput { analog_x: 0, analog_y: 0 },
            },
            analog_mode: false,
            config_mode: false,
        }
    }

    /// Whether the byte `data` is one the current state accepts on a transfer: the joypad commands
    /// expect some bytes to be zero, the mode byte of a mode change to be 0 or 1, and the command
    /// byte to be a known command.
    pub open spec fn byte_accepted(self, data: u8) -> bool {
        match self.spec_state() {
            State::Idle => true,
            State::JoypadStart => spec_joypad_command(data) is Some,
            State::JoypadTransfer { command, stage } => match command {
                JoypadCommand::Read { change_mode } => if stage == 0 {
                    if change_mode {
                        data == 0 || data == 1
                    } else {
                        data == 0
                    }
                } else if 3 <= stage <= 5 {
                    data == 0
                } else {
                    true
                },
                JoypadCommand::SetLed => stage == 0 || stage >= 3 ==> data == 0,
                JoypadCommand::GetLed => stage == 0 ==> data == 0,
            },
        }
    }

    /// Whether `update` accepts `event` with these registers: a transfer needs a byte to send,
    /// one the current state accepts.
    pub open spec fn accepts(self, regs: Registers, event: Event) -> bool {
        event == Event::Transfer ==> match regs.tx {
            Some(data) => self.byte_accepted(data),
            None => false,
        }
    }

    /// The state after a transfer of the byte `data`, the byte received, and the event scheduled
    /// next (a start of acknowledge), if any.
    pub open spec fn spec_transfer(self, regs: Registers, data: u8) -> (State, bool, bool, Option<
        u8,
    >, bool) {
        let (analog, config) = (self.spec_analog_mode(), self.spec_config_mode());
        let joypad = self.spec_joypad();
        match self.spec_state() {
            State::Idle => if data == 0x01 && !regs.port_select {
                (State::JoypadStart, analog, config, Some(0xFFu8), true)
            } else {
                (State::Idle, analog, config, Some(0xFFu8), false)
            },
            State::JoypadStart => (
                State::JoypadTransfer { command: spec_joypad_command(data).unwrap(), stage: 0 },
                analog,
                config,
                Some(joypad_id(config, analog)),
                true,
            ),
            State::JoypadTransfer { command, stage } => {
                let next = State::JoypadTransfer { command, stage: (stage + 1) as u8 };
                match command {
                    JoypadCommand::Read { change_mode } => if stage == 0 {
                        (next, analog, if change_mode { data == 1 } else { config }, Some(0x5Au8), true)
                    } else if stage == 1 {
                        (next, analog, config, Some(!((joypad.digital_input % 0x100) as u8)), true)
                    } else if stage == 2 {
                        let rx = !((joypad.digital_input / 0x100) as u8);
                        if analog || config {
                            (next, analog, config, Some(rx), true)
                        } else {
                            (State::Idle, analog, config, Some(rx), false)
                        }
                    } else if stage == 3 {
                        (next, analog, config, Some(!joypad.analog_right.analog_x), true)
                    } else if stage == 4 {
                        (next, analog, config, Some(!joypad.analog_right.analog_y), true)
                    } else if stage == 5 {
                        (next, analog, config, Some(!joypad.analog_left.analog_x), true)
                    } else {
                        (State::Idle, analog, config, Some(!joypad.analog_left.analog_y), false)
                    },
                    JoypadCommand::SetLed => if stage == 0 {
                        (next, analog, config, Some(0x5Au8), true)
                    } else if stage == 1 {
                        (next, data == 1, config, Some(0u8), true)
                    } else if stage < 6 {
                        (next, analog, config, Some(0u8), true)
                    } else {
                        (State::Idle, analog, config, Some(0u8), false)
                    },
                    JoypadCommand::GetLed => if stage == 0 {
                        (next, analog, config, Some(0x5Au8), true)
                    } else if stage == 1 {
                        (next, analog, config, Some(0x01u8), true)
                    } else if stage == 2 {
                        (next, analog, config, Some(0x02u8), true)
                    } else if stage == 3 {
                        (next, analog, config, Some(if analog { 1u8 } else { 0u8 }), true)
                    } else if stage < 6 {
                        (next, analog, config, Some((6 - stage) as u8), true)
                    } else {
                        (State::Idle, analog, config, Some(0u8), false)
                    },
                }
            },
        }
    }

    /// The registers, the state and the action after `event`, on registers whose status was
    /// updated and interrupt acknowledged.
    #[verifier::opaque]
    pub open spec fn spec_step(self, regs: Registers, event: Event) -> (Registers, State, bool, bool, bool, Action) {
        let (analog, config) = (self.spec_analog_mode(), self.spec_config_mode());
        let state = self.spec_state();
        let in_progress = self.spec_in_progress();
        match event {
            Event::Update => if regs.selected && regs.tx_enable && regs.tx is Some && !in_progress {
                (regs, state, true, analog, config, schedule_only(Event::Transfer, TRANSFER_DELAY))
            } else {
                (regs, state, in_progress, analog, config, no_action())
            },
            Event::StartAck => {
                let enable = regs.device_ready_to_receive_interrupt_enable;
                (
                    Registers {
                        device_ready_to_receive: true,
                        interrupt_request: regs.interrupt_request || enable,
                        ..regs
                    },
                    state,
                    in_progress,
                    analog,
                    config,
                    Action { schedule: Some(Schedule { event: Event::EndAck, delay: END_ACK_DELAY }), request_interrupt: enable },
                )
            },
            Event::EndAck => (
                Registers { device_ready_to_receive: false, ..regs },
                state,
                in_progress,
                analog,
                config,
                no_action(),
            ),
            Event::Transfer => {
                let (next, analog2, config2, rx, ack) = self.spec_transfer(regs, regs.tx.unwrap());
                (
                    Registers { tx: None, rx, ..regs },
                    next,
                    false,
                    analog2,
                    config2,
                    if ack {
                        schedule_only(Event::StartAck, START_ACK_DELAY)
                    } else {
                        no_action()
                    },
                )
            },
        }
    }

    /// Runs the transfer of the byte `data`: returns the next state, the analog and
    /// configuration modes, the byte received and whether the device acknowledges.
    fn transfer(&self, regs: &Registers, data: u8) -> (r: (State, bool, bool, Option<u8>, bool))
        requires
            self.byte_accepted(data),
        ensures
            r == self.spec_transfer(*regs, data),
            r.0 matches State::JoypadTransfer { stage, .. } ==> stage <= 6,
    {
        proof {
            use_type_invariant(self);
        }
        let (analog, config) = (self.analog_mode, self.config_mode);
        let joypad = self.joypad;
        match self.state {
            State::Idle => if data == 0x01 && !regs.port_select {
                (State::JoypadStart, analog, config, Some(0xFF), true)
            } else {
                (State::Idle, analog, config, Some(0xFF), false)
            },
            State::JoypadStart => {
                let command = if data == 0x42 {
                    JoypadCommand::Read { change_mode: false }
                } else if data == 0x43 {
                    JoypadCommand::Read { change_mode: true }
                } else if data == 0x44 {
                    JoypadCommand::SetLed
                } else {
                    JoypadCommand::GetLed
                };
                let id = if config {
                    0xF3
                } else if analog {
                    0x73
                } else {
                    0x41
                };
                (State::JoypadTransfer { command, stage: 0 }, analog, config, Some(id), true)
            },
            State::JoypadTransfer { command, stage } => {
                let next = State::JoypadTransfer { command, stage: stage + 1 };
                match command {
                    JoypadCommand::Read { change_mode } => if stage == 0 {
                        (next, analog, if change_mode { data == 1 } else { config }, Some(0x5A), true)
                    } else if stage == 1 {
                        (next, analog, config, Some(!((joypad.digital_input % 0x100) as u8)), true)
                    } else if stage == 2 {
                        let rx = !((joypad.digital_input / 0x100) as u8);
                        if analog || config {
                            (next, analog, config, Some(rx), true)
                        } else {
                            (State::Idle, analog, config, Some(rx), false)
                        }
                    } else if stage == 3 {
                        (next, analog, config, Some(!joypad.analog_right.analog_x), true)
                    } else if stage == 4 {
                        (next, analog, config, Some(!joypad.analog_right.analog_y), true)
                    } else if stage == 5 {
                        (next, analog, config, Some(!joypad.analog_left.analog_x), true)
                    } else {
                        (State::Idle, analog, config, Some(!joypad.analog_left.analog_y), false)
                    },
                    JoypadCommand::SetLed => if stage == 0 {
                        (next, analog, config, Some(0x5A), true)
                    } else if stage == 1 {
                        (next, data == 1, config, Some(0), true)
                    } else if stage < 6 {
                        (next, analog, config, Some(0), true)
                    } else {
                        (State::Idle, analog, config, Some(0), false)
                    },
                    JoypadCommand::GetLed => if stage == 0 {
                        (next, analog, config, Some(0x5A), true)
                    } else if stage == 1 {
                        (next, analog, config, Some(0x01), true)
                    } else if stage == 2 {
                        (next, analog, config, Some(0x02), true)
                    } else if stage == 3 {
                        (next, analog, config, Some(if analog { 1 } else { 0 }), true)
                    } else if stage < 6 {
                        (next, analog, config, Some(6 - stage), true)
                    } else {
                        (State::Idle, analog, config, Some(0), false)
                    },
                }
            },
        }
    }

    /// Whether `update` accepts `event` with these registers.
    pub fn can_accept(&self, regs: &Registers, event: Event) -> (r: bool)
        ensures
            r == self.accepts(*regs, event),
    {
        if event != Event::Transfer {
            return true;
        }
        let data = match regs.tx {
            Some(data) => data,
            None => return false,
        };
        match self.state {
            State::Idle => true,
            State::JoypadStart => 0x42 <= data && data <= 0x45,
            State::JoypadTransfer { command, stage } => match command {
                JoypadCommand::Read { change_mode } => if stage == 0 {
                    if change_mode {
                        data == 0 || data == 1
                    } else {
                        data == 0
                    }
                } else if 3 <= stage && stage <= 5 {
                    data == 0
                } else {
                    true
                },
                JoypadCommand::SetLed => !(stage == 0 || stage >= 3) || data == 0,
                JoypadCommand::GetLed => stage != 0 || data == 0,
            },
        }
    }

    /// Transfers the byte to send.
    fn transfer_byte(&mut self, regs: &mut Registers) -> (r: Action)
        requires
            old(self).accepts(*old(regs), Event::Transfer),
        ensures
            ({
                let (mid, state, in_progress, analog, config, action) = old(self).spec_step(
                    *old(regs),
                    Event::Transfer,
                );
                &&& *final(regs) == mid
                &&& final(self).spec_state() == state
                &&& final(self).spec_in_progress() == in_progress
                &&& final(self).spec_analog_mode() == analog
                &&& final(self).spec_config_mode() == config
                &&& final(self).spec_joypad() == old(self).spec_joypad()
                &&& r == action
            }),
    {
        proof {
            use_type_invariant(&*self);
            reveal(Sio0::spec_step);
        }
        let data = regs.tx.unwrap();
        let (next, analog, config, rx, ack) = self.transfer(regs, data);
        regs.tx = None;
        regs.rx = rx;
        *self = Sio0 { state: next, in_progress: false, joypad: self.joypad, analog_mode: analog, config_mode: config };
        if ack {
            Action { schedule: Some(Schedule { event: Event::StartAck, delay: START_ACK_DELAY }), request_interrupt: false }
        } else {
            Action { schedule: None, request_interrupt: false }
        }
    }

    /// Runs `event` on registers whose status was updated and interrupt acknowledged.
    fn step(&mut self, regs: &mut Registers, event: Event) -> (r: Action)
        requires
            old(self).accepts(*old(regs), event),
        ensures
            ({
                let (mid, state, in_progress, analog, config, action) = old(self).spec_step(
                    *old(regs),
                    event,
                );
                &&& *final(regs) == mid
                &&& final(self).spec_state() == state
                &&& final(self).spec_in_progress() == in_progress
                &&& final(self).spec_analog_mode() == analog
                &&& final(self).spec_config_mode() == config
                &&& final(self).spec_joypad() == old(self).spec_joypad()
                &&& r == action
            }),
    {
        proof {
            use_type_invariant(&*self);
            reveal(Sio0::spec_step);
        }
        match event {
            Event::Update => {
                if regs.selected && regs.tx_enable && regs.tx.is_some() && !self.in_progress {
                    self.in_progress = true;
                    Action { schedule: Some(Schedule { event: Event::Transfer, delay: TRANSFER_DELAY }), request_interrupt: false }
                } else {
                    Action { schedule: None, request_interrupt: false }
                }
            },
            Event::StartAck => {
                regs.device_ready_to_receive = true;
                let enable = regs.device_ready_to_receive_interrupt_enable;
                if enable {
                    regs.interrupt_request = true;
                }
                Action { schedule: Some(Schedule { event: Event::EndAck, delay: END_ACK_DELAY }), request_interrupt: enable }
            },
            Event::EndAck => {
                regs.device_ready_to_receive = false;
                Action { schedule: None, request_interrupt: false }
            },
            Event::Transfer => self.transfer_byte(regs),
        }
    }

    /// Updates the serial port on `event`: refreshes the status flags, acknowledges a pending
    /// interrupt if asked, then starts a transfer, transfers a byte to the joypad protocol, or
    /// starts or ends an acknowledge of the device. Returns what the rest of the machine has to do.
    pub fn update(&mut self, regs: &mut Registers, event: Event) -> (r: Action)
        requires
            old(self).accepts(*old(regs), event),
        ensures
            ({
                let start = acknowledged(status_updated(*old(regs), old(self).spec_in_progress()));
                let (mid, state, in_progress, analog, config, action) = old(self).spec_step(
                    start,
                    event,
                );
                &&& *final(regs) == status_updated(mid, in_progress)
                &&& final(self).spec_state() == state
                &&& final(self).spec_in_progress() == in_progress
                &&& final(self).spec_analog_mode() == analog
                &&& final(self).spec_config_mode() == config
                &&& final(self).spec_joypad() == old(self).spec_joypad()
                &&& r == action
            }),
    {
        prepare(regs, self.in_progress);
        let action = self.step(regs, event);
        refresh_status(regs, self.in_progress);
        action
    }

    /// Returns the joypad connected.
    pub fn joypad(&self) -> (r: Joypad)
        ensures
            r == self.spec_joypad(),
    {
        self.joypad
    }

    /// Changes the inputs of the joypad connected.
    pub fn set_joypad(&mut self, joypad: Joypad)
        ensures
            final(self).spec_joypad() == joypad,
            final(self).spec_state() == old(self).spec_state(),
            final(self).spec_in_progress() == old(self).spec_in_progress(),
            final(self).spec_analog_mode() == old(self).spec_analog_mode(),
            final(self).spec_config_mode() == old(self).spec_config_mode(),
    {
        proof {
            use_type_invariant(&*self);
        }
        self.joypad = joypad;
    }
}


impl Sio0 {
    /// Proof that the events a step schedules are due within a transfer delay.
    proof fn lemma_step_delay(self, regs: Registers, event: Event)
        ensures
            self.spec_step(regs, event).5.schedule matches Some(s) ==> s.delay <= TRANSFER_DELAY,
    {
        reveal(Sio0::spec_step);
    }

    /// Updates the serial port of the machine on `event`, and does what the update asks: the
    /// event it schedules, after its delay, and the controller and memory card interrupt.
    pub fn update_machine(&mut self, psx: &mut crate::psx::PSX, event: Event) -> (r: Action)
        requires
            old(self).accepts(old(psx).sio0, event),
            old(psx).scheduler.spec_elapsed() + TRANSFER_DELAY <= u64::MAX,
        ensures
            ({
                let start = acknowledged(status_updated(old(psx).sio0, old(self).spec_in_progress()));
                let (mid, state, in_progress, analog, config, action) = old(self).spec_step(
                    start,
                    event,
                );
                &&& final(psx).sio0 == status_updated(mid, in_progress)
                &&& final(self).spec_state() == state
                &&& final(self).spec_in_progress() == in_progress
                &&& final(self).spec_joypad() == old(self).spec_joypad()
                &&& r == action
            }),
            r.schedule matches Some(s) ==> final(psx).scheduler.events() == old(psx).scheduler.events().push(
                crate::scheduler::ScheduledEvent {
                    time: (old(psx).scheduler.spec_elapsed() + s.delay) as u64,
                    event: crate::scheduler::Event::Sio(s.event),
                },
            ),
            r.schedule is None ==> final(psx).scheduler.events() == old(psx).scheduler.events(),
            final(psx).scheduler.spec_elapsed() == old(psx).scheduler.spec_elapsed(),
            final(psx).interrupts.status.0 == if r.request_interrupt {
                old(psx).interrupts.status.0 | (1u32 << crate::interrupts::Interrupt::ControllerAndMemCard.spec_index())
            } else {
                old(psx).interrupts.status.0
            },
            final(psx).interrupts.mask == old(psx).interrupts.mask,
            *final(psx) == (crate::psx::PSX {
                sio0: final(psx).sio0,
                scheduler: final(psx).scheduler,
                interrupts: final(psx).interrupts,
                ..*old(psx)
            }),
    {
        proof {
            let start = acknowledged(status_updated(psx.sio0, self.spec_in_progress()));
            self.lemma_step_delay(start, event);
        }
        let action = self.update(&mut psx.sio0, event);
        if let Some(schedule) = action.schedule {
            psx.scheduler.schedule(crate::scheduler::Event::Sio(schedule.event), schedule.delay);
        }
        if action.request_interrupt {
            psx.interrupts.status.request(crate::interrupts::Interrupt::ControllerAndMemCard);
        }
        action
    }
}

} // verus!
