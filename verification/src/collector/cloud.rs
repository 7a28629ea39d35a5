//! The signed-cloud exporter: it buffers entries and hands them out as
//! batches to sign and send.

use crate::collector::clock::Clock;
use crate::collector::encoding::{base64_standard, base64_text};
use crate::collector::entry::{entries_view, LogEntry, LogEntryView};
use crate::collector::wire::{batch_of, wire_batch};
use crate::crypto::{sign, signed_message, SigningKey, SECRET_KEY_BYTES};
use crate::json::{
    add_member,
    json_text,
    lemma_no_members,
    lemma_well_keyed,
    render,
    Json,
    JsonDoc,
};
use crate::text::joined;
use vstd::prelude::*;
use vstd::utf8::encode_utf8;

verus! {

/// Entries buffered before a batch is sent, where the configuration names no
/// number.
pub const DEFAULT_BATCH_SIZE: u32 = 100;

/// Seconds after which a batch is sent, where the configuration names no
/// number.
pub const DEFAULT_FLUSH_INTERVAL_SECONDS: u64 = 30;

/// Version of the envelope protocol.
pub const PROTOCOL_VERSION: i32 = 1;

/// Why an exporter could not be made or could not take an entry.
#[derive(Debug)]
pub enum ExporterError {
    /// The private key file of a signed-cloud exporter does not exist.
    KeyNotFound {
        /// The configured path.
        path: String,
    },
    /// The private key file of a signed-cloud exporter holds no signing key.
    InvalidKey {
        /// The configured path.
        path: String,
    },
    /// A cache file of this name was made before.
    FileExists {
        /// The path of the file.
        path: String,
    },
    /// The cloud service answered with a failure.
    Transport {
        /// What the service said.
        message: String,
    },
}

impl ExporterError {
    /// What went wrong, in words.
    pub open spec fn text(self) -> Seq<char> {
        match self {
            ExporterError::KeyNotFound { path } => "Private key file not found: "@ + path@,
            ExporterError::InvalidKey { path } => "Invalid secret key: "@ + path@,
            ExporterError::FileExists { path } => "Cache file already written: "@ + path@,
            ExporterError::Transport { message } => message@,
        }
    }

    /// What went wrong, in words.
    pub fn message(&self) -> (s: String)
        ensures
            s@ == self.text(),
    {
        match self {
            ExporterError::KeyNotFound { path } => joined(
                "Private key file not found: ",
                path.as_str(),
            ),
            ExporterError::InvalidKey { path } => joined("Invalid secret key: ", path.as_str()),
            ExporterError::FileExists { path } => joined(
                "Cache file already written: ",
                path.as_str(),
            ),
            ExporterError::Transport { message } => message.clone(),
        }
    }
}

/// What the caller has to do after a step of an exporter.
#[derive(Debug)]
pub enum ExportAction {
    /// Nothing: the entry was buffered, or there is nothing to deliver.
    Nothing,
    /// Sign the batch and send it to the cloud service.
    Transmit {
        /// The entries, oldest first.
        batch: Vec<LogEntry>,
    },
    /// Append a line to a cache file.
    Append {
        /// Whether the file has to be created first.
        create: bool,
        /// The file to append to.
        path: String,
        /// The line, without its newline.
        line: String,
        /// The file to create after the line is written, where the cache
        /// rotates.
        rotate_to: Option<String>,
    },
    /// Store the records in the database.
    Persist {
        /// The records, oldest first.
        records: Vec<crate::db::LogEntry>,
    },
}

/// The envelope in which a signed batch travels.
#[derive(Debug)]
pub struct EncryptedData {
    /// Identifier of this client.
    pub client_id: String,
    /// When the envelope was made, in milliseconds since the Unix epoch.
    pub timestamp: i64,
    /// Version of the envelope protocol.
    pub version: i32,
    /// Name of the signing algorithm.
    pub algorithm: String,
    /// Reserved; empty.
    pub nonce: String,
    /// The signed batch in base64.
    pub data: String,
    /// Whether the batch is compressed.
    pub compressed: bool,
}

/// The JSON document of an envelope.
pub open spec fn envelope_doc(e: EncryptedData) -> JsonDoc {
    JsonDoc::Object(
        Map::<Seq<char>, JsonDoc>::empty().insert("client_id"@, JsonDoc::Text(e.client_id@)).insert(
            "timestamp"@,
            JsonDoc::Int(e.timestamp as int),
        ).insert("version"@, JsonDoc::Int(e.version as int)).insert(
            "algorithm"@,
            JsonDoc::Text(e.algorithm@),
        ).insert("nonce"@, JsonDoc::Text(e.nonce@)).insert("data"@, JsonDoc::Text(e.data@)).insert(
            "compressed"@,
            JsonDoc::Bool(e.compressed),
        ),
    )
}

impl EncryptedData {
    /// The body of the request that carries the envelope: the JSON text of
    /// the envelope's document.
    pub fn to_json(&self) -> (s: String)
        ensures
            s@ == json_text(envelope_doc(*self)),
    {
        let mut list: Vec<(String, Json)> = Vec::new();
        proof {
            lemma_no_members(list);
            reveal_strlit("client_id");
            reveal_strlit("timestamp");
            reveal_strlit("version");
            reveal_strlit("algorithm");
            reveal_strlit("nonce");
            reveal_strlit("data");
            reveal_strlit("compressed");
            assert("client_id"@.len() == 9);
            assert("timestamp"@.len() == 9);
            assert("version"@.len() == 7);
            assert("algorithm"@.len() == 9);
            assert("nonce"@.len() == 5);
            assert("data"@.len() == 4);
            assert("compressed"@.len() == 10);
            assert("client_id"@[0] != "timestamp"@[0]);
            assert("client_id"@[0] != "algorithm"@[0]);
            assert("timestamp"@[0] != "algorithm"@[0]);
        }
        add_member(&mut list, "client_id", Json::Text(self.client_id.clone()));
        add_member(&mut list, "timestamp", Json::Int(self.timestamp));
        add_member(&mut list, "version", Json::Int(self.version as i64));
        add_member(&mut list, "algorithm", Json::Text(self.algorithm.clone()));
        add_member(&mut list, "nonce", Json::Text(self.nonce.clone()));
        add_member(&mut list, "data", Json::Text(self.data.clone()));
        add_member(&mut list, "compressed", Json::Bool(self.compressed));
        proof {
            lemma_well_keyed(list);
        }
        render(&Json::Object(list))
    }
}

/// The content type of the request that carries an envelope.
pub fn content_type() -> (s: String)
    ensures
        s@ == "application/json+encrypted"@,
{
    "application/json+encrypted".to_string()
}

/// Whole seconds from `last` to `now`, both in milliseconds of the monotonic
/// clock; zero if `now` lies before `last`.
pub open spec fn elapsed_seconds(last: int, now: int) -> int {
    if now >= last {
        (now - last) / 1000
    } else {
        0
    }
}

/// Whether a buffer has to be sent: it holds at least `batch_size` entries,
/// or at least `interval` seconds have passed since the last successful send.
pub open spec fn flush_due(buffered: int, batch_size: int, last: int, now: int, interval: int) -> bool {
    buffered >= batch_size || elapsed_seconds(last, now) >= interval
}

/// The bytes that are signed for a batch: its JSON text in UTF-8.
pub open spec fn batch_bytes(entries: Seq<LogEntryView>) -> Seq<u8> {
    encode_utf8(json_text(wire_batch(entries)))
}

/// A signed-cloud exporter as a mathematical value.
pub struct LogNarratorView {
    /// Unique name of the exporter.
    pub name: Seq<char>,
    /// URL that batches are posted to.
    pub endpoint: Seq<char>,
    /// Identifier of this client.
    pub client_id: Seq<char>,
    /// Path of the private signing key.
    pub key_path: Seq<char>,
    /// The buffered entries, oldest first.
    pub pending: Seq<LogEntryView>,
    /// Entries buffered before a batch is sent.
    pub batch_size: u32,
    /// Seconds after which a batch is sent.
    pub flush_interval_seconds: u64,
    /// Monotonic milliseconds of the last successful send, or of creation.
    pub last_flush: u64,
}

/// What taking `log` at `now` does to a signed-cloud exporter in the state
/// `before`: the outcome `r` and the state `after`.
pub open spec fn export_planned(
    before: LogNarratorView,
    after: LogNarratorView,
    log: LogEntryView,
    now: Clock,
    r: Result<ExportAction, ExporterError>,
) -> bool {
    let all = before.pending.push(log);
    &&& r matches Ok(action)
    &&& if flush_due(
        all.len() as int,
        before.batch_size as int,
        before.last_flush as int,
        now.monotonic_millis as int,
        before.flush_interval_seconds as int,
    ) {
        &&& action matches ExportAction::Transmit { batch }
        &&& entries_view(batch@) == all
        &&& after == (LogNarratorView { pending: Seq::empty(), ..before })
    } else {
        &&& action is Nothing
        &&& after == (LogNarratorView { pending: all, ..before })
    }
}

/// What a flush does to a signed-cloud exporter in the state `before`: the
/// outcome `r` and the state `after`.
pub open spec fn flush_planned(
    before: LogNarratorView,
    after: LogNarratorView,
    r: Result<ExportAction, ExporterError>,
) -> bool {
    &&& r matches Ok(action)
    &&& if before.pending.len() == 0 {
        &&& action is Nothing
        &&& after == before
    } else {
        &&& action matches ExportAction::Transmit { batch }
        &&& entries_view(batch@) == before.pending
        &&& after == (LogNarratorView { pending: Seq::empty(), ..before })
    }
}

/// Buffers entries in memory and sends them, signed, to the cloud service.
pub struct LogNarratorExporter {
    name: String,
    endpoint: String,
    client_id: String,
    key_path: String,
    logs_buffer: Vec<LogEntry>,
    batch_size: u32,
    flush_interval_seconds: u64,
    last_flush: u64,
}

impl View for LogNarratorExporter {
    type V = LogNarratorView;

    closed spec fn view(&self) -> LogNarratorView {
        LogNarratorView {
            name: self.name@,
            endpoint: self.endpoint@,
            client_id: self.client_id@,
            key_path: self.key_path@,
            pending: entries_view(self.logs_buffer@),
            batch_size: self.batch_size,
            flush_interval_seconds: self.flush_interval_seconds,
            last_flush: self.last_flush,
        }
    }
}

/// The bytes of a file that was read, if it was there.
pub open spec fn file_bytes(file: Option<&Vec<u8>>) -> Option<Seq<u8>> {
    match file {
        Some(bytes) => Some(bytes@),
        None => None,
    }
}

/// Whether what was read of a private key file is a signing key: the file
/// was there and holds as many bytes as a secret signing key has.
pub open spec fn key_usable(file: Option<Seq<u8>>) -> bool {
    file matches Some(bytes) && bytes.len() == SECRET_KEY_BYTES
}

impl LogNarratorExporter {
    /// Makes the exporter with an empty buffer. `key_file` is what the caller
    /// read of the private key file, `None` if the file is not there. The
    /// exporter is made exactly where the file holds a signing key.
    pub fn new(
        name: String,
        endpoint: String,
        client_id: String,
        key_path: String,
        batch_size: u32,
        flush_interval_seconds: u64,
        key_file: Option<&Vec<u8>>,
        now: Clock,
    ) -> (r: Result<LogNarratorExporter, ExporterError>)
        ensures
            match r {
                Ok(e) => key_usable(file_bytes(key_file)) && e@ == (LogNarratorView {
                    name: name@,
                    endpoint: endpoint@,
                    client_id: client_id@,
                    key_path: key_path@,
                    pending: Seq::empty(),
                    batch_size,
                    flush_interval_seconds,
                    last_flush: now.monotonic_millis,
                }),
                Err(ExporterError::KeyNotFound { path }) => key_file is None && path@ == key_path@,
                Err(ExporterError::InvalidKey { path }) => key_file matches Some(bytes)
                    && bytes@.len() != SECRET_KEY_BYTES && path@ == key_path@,
                Err(_) => false,
            },
    {
        match key_file {
            None => {
                return Err(ExporterError::KeyNotFound { path: key_path });
            },
            Some(bytes) => {
                if bytes.len() != SECRET_KEY_BYTES {
                    return Err(ExporterError::InvalidKey { path: key_path });
                }
            },
        }
        let e = LogNarratorExporter {
            name,
            endpoint,
            client_id,
            key_path,
            logs_buffer: Vec::new(),
            batch_size,
            flush_interval_seconds,
            last_flush: now.monotonic_millis,
        };
        assert(e@.pending =~= Seq::<LogEntryView>::empty());
        Ok(e)
    }

    /// Whether a buffer of `buffered` entries has to be sent at `now`.
    fn is_flush_due(&self, buffered: usize, now: Clock) -> (due: bool)
        ensures
            due == flush_due(
                buffered as int,
                self@.batch_size as int,
                self@.last_flush as int,
                now.monotonic_millis as int,
                self@.flush_interval_seconds as int,
            ),
    {
        let by_size = buffered >= self.batch_size as usize;
        let elapsed: u64 = if now.monotonic_millis >= self.last_flush {
            (now.monotonic_millis - self.last_flush) / 1000
        } else {
            0
        };
        by_size || elapsed >= self.flush_interval_seconds
    }

    /// Takes the buffered entries out, oldest first.
    fn take_buffer(&mut self) -> (batch: Vec<LogEntry>)
        ensures
            entries_view(batch@) == old(self)@.pending,
            final(self)@ == (LogNarratorView { pending: Seq::empty(), ..old(self)@ }),
    {
        let mut batch: Vec<LogEntry> = Vec::new();
        core::mem::swap(&mut batch, &mut self.logs_buffer);
        assert(self@.pending =~= Seq::<LogEntryView>::empty());
        batch
    }

    /// Buffers the entry. If the buffer then holds the batch size, or the
    /// flush interval has passed since the last successful send, the whole
    /// buffer is handed out for sending and the buffer is empty afterwards.
    pub fn export(&mut self, log: LogEntry, now: Clock) -> (r: Result<ExportAction, ExporterError>)
        ensures
            export_planned(old(self)@, final(self)@, log@, now, r),
    {
        let ghost before = self@;
        self.logs_buffer.push(log);
        assert(self@.pending =~= before.pending.push(log@));
        assert(self@ == (LogNarratorView { pending: before.pending.push(log@), ..before }));
        if self.is_flush_due(self.logs_buffer.len(), now) {
            let batch = self.take_buffer();
            Ok(ExportAction::Transmit { batch })
        } else {
            Ok(ExportAction::Nothing)
        }
    }

    /// Hands out whatever is buffered. With an empty buffer there is nothing
    /// to send and nothing changes.
    pub fn flush(&mut self) -> (r: Result<ExportAction, ExporterError>)
        ensures
            flush_planned(old(self)@, final(self)@, r),
    {
        if self.logs_buffer.len() == 0 {
            return Ok(ExportAction::Nothing);
        }
        let batch = self.take_buffer();
        Ok(ExportAction::Transmit { batch })
    }

    /// Records that a batch reached the cloud service at `now`.
    pub fn flush_succeeded(&mut self, now: Clock)
        ensures
            final(self)@ == (LogNarratorView { last_flush: now.monotonic_millis, ..old(self)@ }),
    {
        self.last_flush = now.monotonic_millis;
    }

    /// Writes the batch as JSON and signs the text with the secret key. The
    /// result is the signed message: signature and text.
    pub fn encrypt_batch(&self, batch: &Vec<LogEntry>, secret_key: &SigningKey) -> (r: Result<
        Vec<u8>,
        ExporterError,
    >)
        ensures
            r matches Ok(signed) && signed@ == signed_message(
                batch_bytes(entries_view(batch@)),
                secret_key@,
            ),
    {
        let doc = batch_of(batch);
        let text = render(&doc);
        let bytes = text.as_str().as_bytes();
        Ok(sign(bytes, secret_key))
    }

    /// Signs a batch and puts it into its envelope, stamped with the time of
    /// day.
    pub fn seal(&self, batch: &Vec<LogEntry>, secret_key: &SigningKey, now: Clock) -> (r: Result<
        EncryptedData,
        ExporterError,
    >)
        ensures
            ({
                &&& r matches Ok(envelope)
                &&& envelope.client_id@ == self@.client_id
                &&& envelope.timestamp == now.wall.spec_millis()
                &&& envelope.version == PROTOCOL_VERSION
                &&& envelope.algorithm@ == "nacl.signing"@
                &&& envelope.nonce@ == Seq::<char>::empty()
                &&& envelope.data@ == base64_standard(
                    signed_message(batch_bytes(entries_view(batch@)), secret_key@),
                )
                &&& !envelope.compressed
            }),
    {
        let signed = match self.encrypt_batch(batch, secret_key) {
            Ok(s) => s,
            Err(e) => {
                return Err(e);
            },
        };
        Ok(self.envelope(base64_text(signed.as_slice()), now))
    }

    /// The envelope around encoded data, stamped with the time of day.
    pub fn envelope(&self, data: String, now: Clock) -> (envelope: EncryptedData)
        ensures
            envelope.client_id@ == self@.client_id,
            envelope.timestamp == now.wall.spec_millis(),
            envelope.version == PROTOCOL_VERSION,
            envelope.algorithm@ == "nacl.signing"@,
            envelope.nonce@ == Seq::<char>::empty(),
            envelope.data == data,
            !envelope.compressed,
    {
        EncryptedData {
            client_id: self.client_id.clone(),
            timestamp: now.wall.timestamp_millis(),
            version: PROTOCOL_VERSION,
            algorithm: "nacl.signing".to_string(),
            nonce: String::new(),
            data,
            compressed: false,
        }
    }

    /// What a response of the cloud service means for a flush: any status
    /// but success is a failure that carries the response text.
    pub fn transport_outcome(success: bool, response_text: &str) -> (r: Result<(), ExporterError>)
        ensures
            match r {
                Ok(_) => success,
                Err(ExporterError::Transport { message }) => !success && message@
                    == "Failed to export logs: "@ + response_text@,
                Err(_) => false,
            },
    {
        if success {
            Ok(())
        } else {
            Err(ExporterError::Transport { message: joined("Failed to export logs: ", response_text) })
        }
    }

    /// The exporter's name.
    pub fn name(&self) -> (n: &str)
        ensures
            n@ == self@.name,
    {
        self.name.as_str()
    }

    /// URL that batches are posted to.
    pub fn endpoint(&self) -> (n: &str)
        ensures
            n@ == self@.endpoint,
    {
        self.endpoint.as_str()
    }

    /// Path of the private signing key.
    pub fn key_path(&self) -> (n: &str)
        ensures
            n@ == self@.key_path,
    {
        self.key_path.as_str()
    }

    /// The number of buffered entries.
    pub fn buffered(&self) -> (n: usize)
        ensures
            n == self@.pending.len(),
    {
        self.logs_buffer.len()
    }
}

/// A flush of an empty buffer asks for nothing and changes nothing, so a
/// second flush right after a first never sends.
pub proof fn lemma_flush_is_idempotent(
    before: LogNarratorView,
    between: LogNarratorView,
    after: LogNarratorView,
    first: Result<ExportAction, ExporterError>,
    second: Result<ExportAction, ExporterError>,
)
    requires
        flush_planned(before, between, first),
        flush_planned(between, after, second),
    ensures
        second matches Ok(ExportAction::Nothing),
        after == between,
{
}

/// An entry that fills the batch sends the whole buffer, the new entry last,
/// and leaves the buffer empty.
pub proof fn lemma_full_batch_is_sent(
    before: LogNarratorView,
    after: LogNarratorView,
    log: LogEntryView,
    now: Clock,
    r: Result<ExportAction, ExporterError>,
)
    requires
        export_planned(before, after, log, now, r),
        before.pending.len() + 1 >= before.batch_size,
    ensures
        r matches Ok(ExportAction::Transmit { batch }) && entries_view(batch@)
            == before.pending.push(log),
        after.pending.len() == 0,
{
}

/// An entry that leaves the batch short is kept in the buffer, and nothing is
/// sent, as long as the flush interval has not passed.
pub proof fn lemma_short_batch_waits(
    before: LogNarratorView,
    after: LogNarratorView,
    log: LogEntryView,
    now: Clock,
    r: Result<ExportAction, ExporterError>,
)
    requires
        export_planned(before, after, log, now, r),
        before.pending.len() + 1 < before.batch_size,
        elapsed_seconds(before.last_flush as int, now.monotonic_millis as int)
            < before.flush_interval_seconds,
    ensures
        r matches Ok(ExportAction::Nothing),
        after.pending == before.pending.push(log),
{
}

} // verus!
