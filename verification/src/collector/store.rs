//! The buffered-database exporter: it buffers entries and hands them out as
//! records to store.

use crate::collector::cloud::{ExportAction, ExporterError};
use crate::collector::entry::{entries_view, LogEntry, LogEntryView};
use crate::collector::wire::json_line;
use vstd::prelude::*;

verus! {

/// Whether `record` is the unsent, unencrypted record of `entry`.
pub open spec fn is_record_of(record: crate::db::LogEntry, entry: LogEntryView) -> bool {
    &&& record.id is None
    &&& record.timestamp == entry.timestamp.spec_millis()
    &&& record.source@ == entry.source
    &&& json_line(entry) == Some(record.content@)
    &&& !record.encrypted
    &&& !record.sent
}

/// Whether the records are those of the entries, one for one and in order.
pub open spec fn are_records_of(records: Seq<crate::db::LogEntry>, entries: Seq<LogEntryView>) -> bool {
    &&& records.len() == entries.len()
    &&& forall|i: int| 0 <= i < records.len() ==> is_record_of(#[trigger] records[i], entries[i])
}

/// A buffered-database exporter as a mathematical value.
pub struct DatabaseView {
    /// Unique name of the exporter.
    pub name: Seq<char>,
    /// Path of the database file.
    pub db_path: Seq<char>,
    /// The buffered entries, oldest first.
    pub pending: Seq<LogEntryView>,
    /// Entries buffered before they are stored.
    pub batch_size: u32,
}

/// What taking `log` does to a buffered-database exporter in the state
/// `before`: the outcome `r` and the state `after`. A full buffer is handed
/// out as records.
pub open spec fn store_planned(
    before: DatabaseView,
    after: DatabaseView,
    log: LogEntryView,
    r: Result<ExportAction, ExporterError>,
) -> bool {
    let all = before.pending.push(log);
    if all.len() >= before.batch_size {
        &&& after == (DatabaseView { pending: Seq::empty(), ..before })
        &&& r matches Ok(ExportAction::Persist { records })
        &&& are_records_of(records@, all)
    } else {
        &&& after == (DatabaseView { pending: all, ..before })
        &&& r matches Ok(action)
        &&& action is Nothing
    }
}

/// What a flush does to a buffered-database exporter in the state `before`:
/// the outcome `r` and the state `after`.
pub open spec fn store_flushed(
    before: DatabaseView,
    after: DatabaseView,
    r: Result<ExportAction, ExporterError>,
) -> bool {
    &&& after == (DatabaseView { pending: Seq::empty(), ..before })
    &&& before.pending.len() == 0 ==> after == before
    &&& if before.pending.len() == 0 {
        &&& r matches Ok(action)
        &&& action is Nothing
    } else {
        &&& r matches Ok(ExportAction::Persist { records })
        &&& are_records_of(records@, before.pending)
    }
}

/// Buffers entries in memory and stores them in the local database.
pub struct DatabaseExporter {
    name: String,
    db_path: String,
    logs_buffer: Vec<LogEntry>,
    batch_size: u32,
}

impl View for DatabaseExporter {
    type V = DatabaseView;

    closed spec fn view(&self) -> DatabaseView {
        DatabaseView {
            name: self.name@,
            db_path: self.db_path@,
            pending: entries_view(self.logs_buffer@),
            batch_size: self.batch_size,
        }
    }
}

impl DatabaseExporter {
    /// Makes the exporter with an empty buffer. The caller opens the
    /// database.
    pub fn new(name: String, db_path: String, batch_size: u32) -> (r: Result<
        DatabaseExporter,
        ExporterError,
    >)
        ensures
            r matches Ok(e) && e@ == (DatabaseView {
                name: name@,
                db_path: db_path@,
                pending: Seq::empty(),
                batch_size,
            }),
    {
        let e = DatabaseExporter { name, db_path, logs_buffer: Vec::new(), batch_size };
        assert(e@.pending =~= Seq::<LogEntryView>::empty());
        Ok(e)
    }

    /// Turns entries into unsent records, one for one.
    pub fn insert_logs(&self, logs: &Vec<LogEntry>) -> (r: Result<
        Vec<crate::db::LogEntry>,
        ExporterError,
    >)
        ensures
            r matches Ok(records) && are_records_of(records@, entries_view(logs@)),
    {
        let mut records: Vec<crate::db::LogEntry> = Vec::new();
        let mut i: usize = 0;
        while i < logs.len()
            invariant
                i <= logs.len(),
                records@.len() == i,
                forall|k: int| 0 <= k < i ==> is_record_of(#[trigger] records@[k], logs@[k]@),
            decreases logs.len() - i,
        {
            let log = &logs[i];
            let content = log.to_json_line();
            records.push(
                crate::db::LogEntry {
                    id: None,
                    timestamp: log.timestamp.timestamp_millis(),
                    source: log.source.clone(),
                    content,
                    encrypted: false,
                    sent: false,
                },
            );
            i += 1;
        }
        Ok(records)
    }

    /// Takes the buffered entries out, oldest first.
    fn take_buffer(&mut self) -> (batch: Vec<LogEntry>)
        ensures
            entries_view(batch@) == old(self)@.pending,
            final(self)@ == (DatabaseView { pending: Seq::empty(), ..old(self)@ }),
    {
        let mut batch: Vec<LogEntry> = Vec::new();
        core::mem::swap(&mut batch, &mut self.logs_buffer);
        assert(self@.pending =~= Seq::<LogEntryView>::empty());
        batch
    }

    /// Buffers the entry. If the buffer then holds the batch size, its
    /// entries are handed out as records to store and the buffer is empty
    /// afterwards, also where a record cannot be made.
    pub fn export(&mut self, log: LogEntry) -> (r: Result<ExportAction, ExporterError>)
        ensures
            store_planned(old(self)@, final(self)@, log@, r),
    {
        let ghost before = self@;
        self.logs_buffer.push(log);
        assert(self@.pending =~= before.pending.push(log@));
        assert(self@ == (DatabaseView { pending: before.pending.push(log@), ..before }));
        if self.logs_buffer.len() >= self.batch_size as usize {
            let logs = self.take_buffer();
            match self.insert_logs(&logs) {
                Ok(records) => Ok(ExportAction::Persist { records }),
                Err(e) => Err(e),
            }
        } else {
            Ok(ExportAction::Nothing)
        }
    }

    /// Hands out whatever is buffered as records to store. With an empty
    /// buffer there is nothing to store and nothing changes.
    pub fn flush(&mut self) -> (r: Result<ExportAction, ExporterError>)
        ensures
            store_flushed(old(self)@, final(self)@, r),
    {
        assert(old(self)@.pending.len() == 0 ==> old(self)@.pending =~= Seq::<LogEntryView>::empty());
        if self.logs_buffer.len() == 0 {
            return Ok(ExportAction::Nothing);
        }
        let logs = self.take_buffer();
        match self.insert_logs(&logs) {
            Ok(records) => Ok(ExportAction::Persist { records }),
            Err(e) => Err(e),
        }
    }

    /// The exporter's name.
    pub fn name(&self) -> (n: &str)
        ensures
            n@ == self@.name,
    {
        self.name.as_str()
    }

    /// Path of the database file.
    pub fn db_path(&self) -> (n: &str)
        ensures
            n@ == self@.db_path,
    {
        self.db_path.as_str()
    }
}

} // verus!
