use vstd::prelude::*;

use crate::timing::{timing_for_rate, TimingChoice, supported_prescaler, params_with};

verus! {

/// Width of the frame identifiers used on the bus.
#[derive(Clone, Copy, Debug, PartialEq, Eq, Structural)]
pub enum IdLen {
    /// 11 bit identifiers.
    Standard,
    /// 29 bit identifiers.
    Extended,
}

/// Operating mode of the bus controller.
#[derive(Clone, Copy, Debug, PartialEq, Eq, Structural)]
pub enum Mode {
    /// Normal operation.
    Normal,
    /// No acknowledgement needed (self test).
    LoopBack,
    /// Transmission disabled.
    ListenOnly,
}

/// Which identifiers the controller accepts. Only accept-all is programmed:
/// the other policies are declared and resolve to accept-all as well.
#[derive(Clone, Copy, Debug, PartialEq, Eq, Structural)]
pub enum Filter {
    AcceptAll,
    RejectAll,
    Range(u8, u8),
}

/// Configuration of the bus peripheral.
#[derive(Clone, Copy, Debug, PartialEq, Eq, Structural)]
pub struct Can {
    /// GPIO pin used for transmission.
    pub tx: u8,
    /// GPIO pin used for reception.
    pub rx: u8,
    /// Standard (11 bit) or extended (29 bit) identifiers.
    pub id_length: IdLen,
    /// Bit rate in bit/s (1 Mbit/s is 1000000).
    pub bit_timing: u32,
    /// Loopback is used for testing.
    pub mode: Mode,
    /// Accepted identifiers (only accept-all takes effect).
    pub filter: Filter,
}

/// Depth of the transmit and of the receive queue of the driver.
pub const QUEUE_LEN: u32 = 5;

/// General driver settings derived from a configuration.
#[derive(Clone, Copy, Debug, PartialEq, Eq, Structural)]
pub struct GeneralConfig {
    pub mode: Mode,
    pub tx_io: i32,
    pub rx_io: i32,
    /// Clock-out pin; -1 for none.
    pub clkout_io: i32,
    /// Bus-off indicator pin; -1 for none.
    pub bus_off_io: i32,
    pub tx_queue_len: u32,
    pub rx_queue_len: u32,
}

/// Acceptance filter settings.
#[derive(Clone, Copy, Debug, PartialEq, Eq, Structural)]
pub struct FilterConfig {
    pub acceptance_code: u32,
    pub acceptance_mask: u32,
    pub single_filter: bool,
}

/// Everything the driver needs to install the peripheral.
#[derive(Clone, Copy, Debug, PartialEq, Eq, Structural)]
pub struct DriverConfig {
    pub general: GeneralConfig,
    pub timing: TimingChoice,
    pub filter: FilterConfig,
}

/// The accept-all filter: every identifier passes.
pub open spec fn accept_all_filter() -> FilterConfig {
    FilterConfig { acceptance_code: 0, acceptance_mask: 0xFFFF_FFFF, single_filter: true }
}

impl Can {
    /// The configuration the board brings its bus up with on pins `tx` and
    /// `rx`: standard identifiers at 1 Mbit/s, normal mode, every identifier
    /// accepted.
    pub fn board_config(tx: u8, rx: u8) -> (r: Can)
        ensures
            r == (Can {
                tx,
                rx,
                id_length: IdLen::Standard,
                bit_timing: 1000000,
                mode: Mode::Normal,
                filter: Filter::AcceptAll,
            }),
    {
        Can { tx, rx, id_length: IdLen::Standard, bit_timing: 1000000, mode: Mode::Normal, filter: Filter::AcceptAll }
    }

    /// Builds the general, timing and filter settings that installing the
    /// peripheral with this configuration hands to the driver.
    pub fn install_config(&self) -> (r: DriverConfig)
        ensures
            r.general == (GeneralConfig {
                mode: self.mode,
                tx_io: self.tx as i32,
                rx_io: self.rx as i32,
                clkout_io: -1i32,
                bus_off_io: -1i32,
                tx_queue_len: 5,
                rx_queue_len: 5,
            }),
            r.timing.defaulted == supported_prescaler(self.bit_timing).is_none(),
            r.timing.params == params_with(
                match supported_prescaler(self.bit_timing) {
                    Some(b) => b,
                    None => 8,
                },
            ),
            r.filter == accept_all_filter(),
    {
        let general = GeneralConfig {
            mode: self.mode,
            tx_io: self.tx as i32,
            rx_io: self.rx as i32,
            clkout_io: -1,
            bus_off_io: -1,
            tx_queue_len: QUEUE_LEN,
            rx_queue_len: QUEUE_LEN,
        };
        let filter = FilterConfig {
            acceptance_code: 0,
            acceptance_mask: 0xFFFF_FFFF,
            single_filter: true,
        };
        DriverConfig { general, timing: timing_for_rate(self.bit_timing), filter }
    }
}


/// Maximum number of data bytes in a frame.
pub const MAX_DATA_LEN: usize = 8;

/// A frame as it travels on the bus: an identifier, a data length code and an
/// eight-byte data buffer whose bytes past the length are not part of the frame.
#[derive(Clone, Copy, Debug, PartialEq, Eq)]
pub struct Frame {
    pub identifier: u32,
    /// Extended (29 bit) identifier; frames are sent with standard framing.
    pub extended: bool,
    pub data_length_code: u8,
    pub data: [u8; 8],
}

/// An application message as the message catalog sees it: its identifier and
/// its content bytes.
#[derive(Clone, Debug)]
pub struct RawMessage {
    pub id: u32,
    pub contents: Vec<u8>,
}

/// The mathematical value of a message.
pub struct MessageView {
    pub id: u32,
    pub contents: Seq<u8>,
}

/// The mathematical value of a frame.
pub struct FrameView {
    pub identifier: u32,
    pub extended: bool,
    pub data_length_code: u8,
    pub data: Seq<u8>,
}

impl View for RawMessage {
    type V = MessageView;

    open spec fn view(&self) -> MessageView {
        MessageView { id: self.id, contents: self.contents@ }
    }
}

impl View for Frame {
    type V = FrameView;

    open spec fn view(&self) -> FrameView {
        FrameView {
            identifier: self.identifier,
            extended: self.extended,
            data_length_code: self.data_length_code,
            data: self.data@,
        }
    }
}

/// Why a frame could not be read as a message.
#[derive(Clone, Copy, Debug, PartialEq, Eq, Structural)]
pub enum DecodeError {
    /// The data length code is over eight.
    Length,
}

/// The frame that carries a message: its bytes first, zeros after them.
pub open spec fn encoded(m: MessageView) -> FrameView {
    FrameView {
        identifier: m.id,
        extended: false,
        data_length_code: m.contents.len() as u8,
        data: m.contents + Seq::new((8 - m.contents.len()) as nat, |i: int| 0u8),
    }
}

/// The message a frame carries, if its length code is at most eight.
pub open spec fn decoded(f: FrameView) -> Option<MessageView> {
    if f.data_length_code <= 8 {
        Some(MessageView { id: f.identifier, contents: f.data.take(f.data_length_code as int) })
    } else {
        None
    }
}

impl Can {
    /// The frame that carries `content`: standard framing, the content's length
    /// as length code, its bytes at the start of a zero-filled buffer.
    pub fn create_message(content: &RawMessage) -> (r: Frame)
        requires
            content.contents@.len() <= 8,
        ensures
            r@ == encoded(content@),
    {
        let mut buf = [0u8; 8];
        let n = content.contents.len();
        let mut i: usize = 0;
        while i < n
            invariant
                n == content.contents@.len(),
                n <= 8,
                i <= n,
                forall|j: int| 0 <= j < i ==> buf@[j] == content.contents@[j],
                forall|j: int| i <= j < 8 ==> buf@[j] == 0u8,
            decreases n - i,
        {
            buf[i] = content.contents[i];
            i = i + 1;
        }
        let r = Frame { identifier: content.id, extended: false, data_length_code: n as u8, data: buf };
        assert(r@.data =~= encoded(content@).data);
        r
    }
}

impl Frame {
    /// The message this frame carries: its identifier and the first
    /// `data_length_code` bytes; an error if that code is over eight.
    pub fn decode(&self) -> (r: Result<RawMessage, DecodeError>)
        ensures
            r is Err <==> decoded(self@) is None,
            r is Err ==> r == Err::<RawMessage, DecodeError>(DecodeError::Length),
            r matches Ok(m) ==> decoded(self@) == Some(m@),
    {
        if self.data_length_code as usize > MAX_DATA_LEN {
            return Err(DecodeError::Length);
        }
        let n = self.data_length_code as usize;
        let mut contents: Vec<u8> = Vec::new();
        let mut i: usize = 0;
        while i < n
            invariant
                n == self.data_length_code as int,
                n <= 8,
                i <= n,
                contents@ =~= self.data@.take(i as int),
            decreases n - i,
        {
            contents.push(self.data[i]);
            i = i + 1;
        }
        let m = RawMessage { id: self.identifier, contents };
        assert(m@.contents =~= self.data@.take(self.data_length_code as int));
        Ok(m)
    }
}

/// Decoding the frame that encodes a message gives that message back.
pub proof fn lemma_decode_encode(m: MessageView)
    requires
        m.contents.len() <= 8,
    ensures
        decoded(encoded(m)) == Some(m),
{
    let f = encoded(m);
    assert(f.data.take(f.data_length_code as int) =~= m.contents);
}

/// Controller state code of a running controller (the others are stopped,
/// bus-off and recovering).
pub const STATE_RUNNING: u32 = 1;

/// Receive backlog above which the receive side is reported.
pub const RX_BACKLOG_LIMIT: u32 = 100;

/// A point-in-time read of the controller's status.
#[derive(Clone, Copy, Debug, PartialEq, Eq, Structural)]
pub struct CanInfo {
    /// Controller state: stopped, running, bus-off or recovering.
    pub state: u32,
    /// Messages queued for transmission or awaiting completion.
    pub msgs_to_tx: u32,
    /// Messages in the receive queue waiting to be read.
    pub msgs_to_rx: u32,
    /// Transmit error counter.
    pub tx_error_counter: u32,
    /// Receive error counter.
    pub rx_error_counter: u32,
    /// Messages whose transmission failed.
    pub tx_failed_count: u32,
    /// Messages lost to a full receive queue.
    pub rx_missed_count: u32,
    /// Messages lost to a receive FIFO overrun.
    pub rx_overrun_count: u32,
    /// Times arbitration was lost.
    pub arb_lost_count: u32,
    /// Bus errors seen.
    pub bus_error_count: u32,
}

impl CanInfo {
    /// A status with every field zero.
    pub fn default() -> (r: CanInfo)
        ensures
            r == (CanInfo {
                state: 0,
                msgs_to_tx: 0,
                msgs_to_rx: 0,
                tx_error_counter: 0,
                rx_error_counter: 0,
                tx_failed_count: 0,
                rx_missed_count: 0,
                rx_overrun_count: 0,
                arb_lost_count: 0,
                bus_error_count: 0,
            }),
    {
        CanInfo {
            state: 0,
            msgs_to_tx: 0,
            msgs_to_rx: 0,
            tx_error_counter: 0,
            rx_error_counter: 0,
            tx_failed_count: 0,
            rx_missed_count: 0,
            rx_overrun_count: 0,
            arb_lost_count: 0,
            bus_error_count: 0,
        }
    }

    /// Whether a non-blocking receive reads from the driver: only when a
    /// message waits in the receive queue.
    pub fn rx_pending(&self) -> (r: bool)
        ensures
            r == (self.msgs_to_rx > 0),
    {
        self.msgs_to_rx > 0
    }

    /// Whether the transmit side deviates from a healthy baseline and is to be
    /// reported: not running, or any transmit error, failure or queued message.
    pub fn tx_deviates(&self) -> (r: bool)
        ensures
            r == (self.state != STATE_RUNNING || self.tx_error_counter != 0
                || self.tx_failed_count != 0 || self.msgs_to_tx != 0),
    {
        self.state != STATE_RUNNING || self.tx_error_counter != 0 || self.tx_failed_count != 0
            || self.msgs_to_tx != 0
    }

    /// Whether the receive side deviates from a healthy baseline and is to be
    /// reported: not running, any receive error, overrun or missed message, or
    /// a backlog over one hundred messages.
    pub fn rx_deviates(&self) -> (r: bool)
        ensures
            r == (self.state != STATE_RUNNING || self.rx_error_counter != 0
                || self.rx_overrun_count != 0 || self.msgs_to_rx > RX_BACKLOG_LIMIT
                || self.rx_missed_count != 0),
    {
        self.state != STATE_RUNNING || self.rx_error_counter != 0 || self.rx_overrun_count != 0
            || self.msgs_to_rx > RX_BACKLOG_LIMIT || self.rx_missed_count != 0
    }
}

} // verus!
