//! An in-memory log of structured records.
pub mod events;

use crate::text::same_text;
use vstd::prelude::*;
use vstd::string::*;

verus! {

/// How serious a record is.
#[derive(Clone, Copy, Debug, PartialEq, Eq, Structural)]
pub enum LogLevel {
    Info,
    Warn,
}

/// The value of one field.
#[derive(Debug, PartialEq)]
pub enum FieldValue {
    Str(String),
    U64(u64),
}

/// What a field holds.
pub enum FieldView {
    Str(Seq<char>),
    U64(u64),
}

impl View for FieldValue {
    type V = FieldView;

    open spec fn view(&self) -> FieldView {
        match self {
            FieldValue::Str(s) => FieldView::Str(s@),
            FieldValue::U64(n) => FieldView::U64(*n),
        }
    }
}

/// One log record.
#[derive(Debug)]
pub struct LogRecord {
    pub level: LogLevel,
    pub event: String,
    pub timestamp: u64,
    pub fields: Vec<(String, FieldValue)>,
}

/// What a record says.
pub struct RecordView {
    pub level: LogLevel,
    pub event: Seq<char>,
    pub timestamp: u64,
    pub fields: Seq<(Seq<char>, FieldView)>,
}

/// What a list of fields says.
pub open spec fn field_views(fields: Seq<(String, FieldValue)>) -> Seq<(Seq<char>, FieldView)> {
    fields.map_values(|f: (String, FieldValue)| (f.0@, f.1@))
}

impl View for LogRecord {
    type V = RecordView;

    open spec fn view(&self) -> RecordView {
        RecordView {
            level: self.level,
            event: self.event@,
            timestamp: self.timestamp,
            fields: field_views(self.fields@),
        }
    }
}

impl LogRecord {
    /// The value of the first field of that name.
    pub fn field(&self, name: &str) -> (r: Option<&FieldValue>)
        ensures
            match r {
                Some(v) => exists|i: int|
                    {
                        &&& 0 <= i < self.fields@.len()
                        &&& (#[trigger] self.fields@[i]).0@ == name@
                        &&& *v == self.fields@[i].1
                        &&& forall|j: int| 0 <= j < i ==> (#[trigger] self.fields@[j]).0@ != name@
                    },
                None => forall|j: int|
                    0 <= j < self.fields@.len() ==> (#[trigger] self.fields@[j]).0@ != name@,
            },
    {
        let mut i: usize = 0;
        while i < self.fields.len()
            invariant
                0 <= i <= self.fields@.len(),
                forall|j: int| 0 <= j < i ==> (#[trigger] self.fields@[j]).0@ != name@,
            decreases self.fields@.len() - i,
        {
            if same_text(self.fields[i].0.as_str(), name) {
                return Some(&self.fields[i].1);
            }
            i = i + 1;
        }
        None
    }
}

/// Collects records in order.
#[derive(Debug)]
pub struct StructuredLogger {
    records: Vec<LogRecord>,
}

impl View for StructuredLogger {
    type V = Seq<RecordView>;

    closed spec fn view(&self) -> Seq<RecordView> {
        self.records@.map_values(|r: LogRecord| r@)
    }
}

impl StructuredLogger {
    /// An empty log.
    pub fn new() -> (l: Self)
        ensures
            l@ == Seq::<RecordView>::empty(),
    {
        let l = StructuredLogger { records: Vec::new() };
        assert(l@ =~= Seq::<RecordView>::empty());
        l
    }

    /// The number of records.
    pub fn len(&self) -> (n: usize)
        ensures
            n == self@.len(),
    {
        self.records.len()
    }

    /// The records, oldest first.
    pub fn records(&self) -> (r: &Vec<LogRecord>)
        ensures
            r@.map_values(|r: LogRecord| r@) == self@,
    {
        &self.records
    }

    /// Appends one record.
    pub fn log(
        &mut self,
        level: LogLevel,
        event: &str,
        timestamp: u64,
        fields: Vec<(String, FieldValue)>,
    )
        ensures
            final(self)@ == old(self)@.push(
                RecordView { level, event: event@, timestamp, fields: field_views(fields@) },
            ),
    {
        let ghost before = self@;
        self.records.push(LogRecord { level, event: event.to_owned(), timestamp, fields });
        assert(self@ =~= before.push(
            RecordView { level, event: event@, timestamp, fields: field_views(fields@) },
        ));
    }
}

} // verus!
