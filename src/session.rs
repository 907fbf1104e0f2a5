//! The printer session: at most one open link, replaced wholesale by each
//! successful connect. The session decides; whoever owns the device does the
//! I/O it asks for and reports back. The owner keeps the session behind a
//! lock, so prints reach the device one whole stream at a time.
use crate::config::{config_in_range, Dialect, PrinterConfig};
use crate::encoder::{
    batch_is_valid, encode_label_batch, encode_text_label, label_stream, lemma_plain_chars_plain_bytes, push_str,
    text_label_stream, LabelData,
};
use crate::error::PrinterError;
use crate::transport::{device_search, has_match, UsbDeviceId, UsbEndpoints};
use vstd::prelude::*;
use vstd::string::StringSliceAdditionalSpecFns;

verus! {

/// An open link to the printer, by transport.
#[derive(Clone, Debug)]
pub enum Link {
    /// A claimed USB interface and its two bulk endpoints.
    Usb(UsbEndpoints),
    /// A printer queue of the host's spooler, by name.
    Spooler(String),
    /// A serial device at a baud rate, 8 data bits, no parity, one stop bit.
    Serial { port: String, baud_rate: u32 },
}

/// The state of the session.
#[derive(Clone, Debug)]
pub enum SessionState {
    Disconnected,
    /// `simulated` marks a stand-in link that sends nowhere, put in place on
    /// purpose where no device was found.
    Connected { link: Link, simulated: bool },
}

/// The shared printer session.
pub struct PrinterSession {
    state: SessionState,
}

impl View for PrinterSession {
    type V = SessionState;

    closed spec fn view(&self) -> SessionState {
        self.state
    }
}

/// The state after a connect attempt: the new link on success; on failure
/// the state stays as it was.
pub open spec fn after_connect(s: SessionState, outcome: Result<Link, PrinterError>) -> SessionState {
    match outcome {
        Ok(link) => SessionState::Connected { link, simulated: false },
        Err(_) => s,
    }
}

/// What a connect attempt returns.
pub open spec fn connect_reply(outcome: Result<Link, PrinterError>) -> Result<(), PrinterError> {
    match outcome {
        Ok(_) => Ok(()),
        Err(e) => Err(e),
    }
}

/// What a print request yields: the stream to write, or why there is none.
pub open spec fn print_outcome(
    s: SessionState,
    dialect: Dialect,
    c: PrinterConfig,
    labels: Seq<Option<LabelData>>,
) -> Result<Seq<u8>, PrinterError> {
    if s is Disconnected {
        Err(PrinterError::NotConnected)
    } else if !batch_is_valid(c, labels) {
        Err(PrinterError::InvalidInput)
    } else {
        Ok(label_stream(dialect, c, labels))
    }
}

pub open spec fn bytes_result(r: Result<Vec<u8>, PrinterError>) -> Result<Seq<u8>, PrinterError> {
    match r {
        Ok(v) => Ok(v@),
        Err(e) => Err(e),
    }
}

/// The text of the test label.
pub open spec fn test_label_text() -> Seq<u8> {
    "Teste de Impressão".spec_bytes()
}

/// Whether a USB link answered the status query: it must send back at least
/// one byte. Spooler and serial links send nothing back and count as
/// healthy once open.
pub fn check_link_health(link: &Link, reply_len: usize) -> (r: Result<(), PrinterError>)
    ensures
        (link is Usb && reply_len == 0) <==> r is Err,
        r is Err ==> r->Err_0 is TransportError,
{
    match link {
        Link::Usb(_) => if reply_len > 0 {
            Ok(())
        } else {
            Err(PrinterError::TransportError("the printer did not answer".to_owned()))
        },
        _ => Ok(()),
    }
}

/// Whether a write went through whole: the spooler and the serial port
/// report how many bytes they took.
pub fn check_write(written: usize, expected: usize) -> (r: Result<(), PrinterError>)
    ensures
        r is Ok <==> written == expected,
        r is Err ==> r->Err_0 is TransportError,
{
    if written == expected {
        Ok(())
    } else {
        Err(PrinterError::TransportError("the printer took only part of the data".to_owned()))
    }
}

/// The status query that a USB printer answers.
pub fn status_query() -> (r: Vec<u8>)
    ensures
        r@ == "~H\r\n".spec_bytes(),
{
    let mut v: Vec<u8> = Vec::new();
    push_str(&mut v, "~H\r\n");
    assert(v@ =~= "~H\r\n".spec_bytes());
    v
}

impl PrinterSession {
    /// A session with no link.
    pub fn new() -> (r: PrinterSession)
        ensures
            r@ is Disconnected,
    {
        PrinterSession { state: SessionState::Disconnected }
    }

    pub fn is_connected(&self) -> (r: bool)
        ensures
            r == (self@ is Connected),
    {
        match &self.state {
            SessionState::Connected { .. } => true,
            SessionState::Disconnected => false,
        }
    }

    /// Whether the open link is a stand-in that sends nowhere.
    pub fn is_simulated(&self) -> (r: bool)
        ensures
            r == (self@ is Connected && self@->Connected_simulated),
    {
        match &self.state {
            SessionState::Connected { simulated, .. } => *simulated,
            SessionState::Disconnected => false,
        }
    }

    /// The open link; `NotConnected` where there is none.
    pub fn active_link(&self) -> (r: Result<&Link, PrinterError>)
        ensures
            self@ is Disconnected ==> r == Err::<&Link, PrinterError>(PrinterError::NotConnected),
            self@ is Connected ==> r == Ok::<&Link, PrinterError>(&self@->Connected_link),
    {
        match &self.state {
            SessionState::Connected { link, .. } => Ok(link),
            SessionState::Disconnected => Err(PrinterError::NotConnected),
        }
    }

    /// Takes the outcome of a connect attempt: a link replaces the old one;
    /// an error is handed back and the session stays as it was.
    pub fn connect(&mut self, outcome: Result<Link, PrinterError>) -> (r: Result<(), PrinterError>)
        ensures
            final(self)@ == after_connect(old(self)@, outcome),
            r == connect_reply(outcome),
    {
        match outcome {
            Ok(link) => {
                self.state = SessionState::Connected { link, simulated: false };
                Ok(())
            },
            Err(e) => Err(e),
        }
    }

    /// Puts a stand-in link in place where no device could be had. The
    /// session reports it through `is_simulated`.
    pub fn connect_simulated(&mut self, link: Link)
        ensures
            final(self)@ == (SessionState::Connected { link, simulated: true }),
    {
        self.state = SessionState::Connected { link, simulated: true };
    }

    /// Drops the link.
    pub fn disconnect(&mut self)
        ensures
            final(self)@ is Disconnected,
    {
        self.state = SessionState::Disconnected;
    }

    /// The stream that prints a batch of labels on the open link;
    /// `NotConnected` without one, `InvalidInput` for a batch that the
    /// encoder refuses. The session does not change.
    pub fn prepare_print(
        &self,
        dialect: Dialect,
        config: &PrinterConfig,
        labels: &Vec<Option<LabelData>>,
    ) -> (r: Result<Vec<u8>, PrinterError>)
        ensures
            bytes_result(r) == print_outcome(self@, dialect, *config, labels@),
    {
        if !self.is_connected() {
            return Err(PrinterError::NotConnected);
        }
        encode_label_batch(dialect, config, labels)
    }

    /// The stream of the test label on the open link; `NotConnected` without
    /// one.
    pub fn prepare_test_print(&self, config: &PrinterConfig) -> (r: Result<Vec<u8>, PrinterError>)
        ensures
            self@ is Disconnected ==> r == Err::<Vec<u8>, PrinterError>(PrinterError::NotConnected),
            self@ is Connected && config_in_range(*config) ==> r is Ok && r->Ok_0@
                == text_label_stream(*config, test_label_text()),
            self@ is Connected && !config_in_range(*config) ==> r == Err::<Vec<u8>, PrinterError>(
                PrinterError::InvalidInput,
            ),
    {
        if !self.is_connected() {
            return Err(PrinterError::NotConnected);
        }
        proof {
            reveal_strlit("Teste de Impressão");
            lemma_plain_chars_plain_bytes("Teste de Impressão"@);
        }
        encode_text_label(config, "Teste de Impressão")
    }
}

/// A connect attempt that finds no attached device of a known model fails
/// with `DeviceNotFound`, and a disconnected session stays disconnected.
pub proof fn lemma_no_device_stays_disconnected(
    devices: Seq<UsbDeviceId>,
    known: Seq<UsbDeviceId>,
    s: SessionState,
)
    requires
        !has_match(devices, known),
        s is Disconnected,
    ensures
        device_search(devices, known) == Err::<usize, PrinterError>(PrinterError::DeviceNotFound),
        connect_reply(Err(device_search(devices, known)->Err_0)) == Err::<(), PrinterError>(
            PrinterError::DeviceNotFound,
        ),
        after_connect(s, Err(device_search(devices, known)->Err_0)) is Disconnected,
{
}

} // verus!
