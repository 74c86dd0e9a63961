//! The writer's side of the repository: where the file lies, how a record
//! is laid out, and which offset each record gets.

use crate::config::ContentRepositoryConfig;
use crate::content_repository::models::{as_slice, bytes_of, Command, Written};
use vstd::prelude::*;
use vstd::slice::slice_to_vec;
use vstd::string::StringExecFns;

verus! {

/// The byte that ends every record.
pub const RECORD_END: u8 = 10;

/// A payload as it is stored: its bytes, then one newline.
pub open spec fn record_of(payload: Seq<u8>) -> Seq<u8> {
    payload.push(RECORD_END)
}

/// Where the repository's file lies: `<base_path>/<file_name_prefix>.txt`.
pub open spec fn file_path_of(base_path: Seq<char>, file_name_prefix: Seq<char>) -> Seq<char> {
    base_path + "/"@ + file_name_prefix + ".txt"@
}

/// Works out the path of the repository's file from the settings.
pub fn file_path(config: &ContentRepositoryConfig) -> (r: String)
    ensures
        r@ == file_path_of(config.base_path@, config.file_name_prefix@),
{
    let mut path = config.base_path.clone();
    path.append("/");
    path.append(config.file_name_prefix.as_str());
    path.append(".txt");
    path
}

/// The writer of the repository's file. It alone appends, so it knows the
/// file's length without asking.
pub struct ContentRepository {
    length: u64,
}

impl View for ContentRepository {
    type V = nat;

    /// The length of the file.
    closed spec fn view(&self) -> nat {
        self.length as nat
    }
}

impl ContentRepository {
    /// The writer of a file that is `file_length` bytes long.
    pub fn new(file_length: u64) -> (r: Self)
        ensures
            r@ == file_length,
    {
        ContentRepository { length: file_length }
    }

    /// The length of the file: the offset that the next record gets.
    pub fn length(&self) -> (r: u64)
        ensures
            r == self@,
    {
        self.length
    }

    /// Lays out the record for `data` and counts it into the file's length.
    /// Hands back the bytes to append. A record that would take the file
    /// past the largest offset is refused, and nothing changes.
    pub fn append_data(&mut self, data: &[u8]) -> (r: Option<Vec<u8>>)
        ensures
            r is Some <==> old(self)@ + data@.len() + 1 <= u64::MAX,
            match r {
                Some(record) => record@ == record_of(data@) && final(self)@ == old(self)@
                    + record@.len(),
                None => final(self)@ == old(self)@,
            },
    {
        let size: usize = data.len();
        if size as u64 >= u64::MAX - self.length {
            return None;
        }
        let mut record = slice_to_vec(data);
        record.push(RECORD_END);
        self.length = self.length + size as u64 + 1;
        Some(record)
    }

    /// Takes one request: the record starts where the file ended before it.
    /// A request whose record is refused comes back as its reply handle.
    pub fn process_data<R>(&mut self, data: Command<R>) -> (r: Result<Written<R>, R>)
        ensures
            r is Ok <==> old(self)@ + bytes_of(data->content).len() + 1 <= u64::MAX,
            match r {
                Ok(written) => {
                    &&& written.offset == old(self)@
                    &&& written.record@ == record_of(bytes_of(data->content))
                    &&& written.tx == data->tx
                    &&& final(self)@ == old(self)@ + written.record@.len()
                },
                Err(tx) => tx == data->tx && final(self)@ == old(self)@,
            },
    {
        match data {
            Command::Data { content, tx } => {
                let record_start_offset: u64 = self.length;
                match self.append_data(as_slice(&content)) {
                    Some(record) => Ok(Written { record, offset: record_start_offset, tx }),
                    None => Err(tx),
                }
            },
        }
    }
}

} // verus!
