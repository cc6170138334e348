use vstd::prelude::*;
use crate::monster::Monster;

verus! {

/// Why a bulk import was refused or failed.
#[derive(Clone, Copy, Debug, PartialEq, Eq, Structural)]
pub enum ImportError {
    /// A part of the upload carries no file name.
    NoFileName,
    /// The upload holds no file.
    NoFileUploaded,
    /// A row of the file is not a complete fighter record.
    IncompleteData,
    /// The file holds no fighter record.
    NoMonsters,
    /// The store accepted none of the records.
    CreateFailed,
}

/// Progress through the parts of an upload, as they arrive.
#[derive(Clone, Copy, Debug, PartialEq, Eq, Structural)]
pub struct UploadState {
    pub file_seen: bool,
}

impl UploadState {
    pub fn new() -> (r: UploadState)
        ensures
            !r.file_seen,
    {
        UploadState { file_seen: false }
    }

    /// Takes in the next part of the upload: it must name a file.
    pub fn on_part(self, has_file_name: bool) -> (r: Result<UploadState, ImportError>)
        ensures
            has_file_name ==> r == Ok::<UploadState, ImportError>(UploadState { file_seen: true }),
            !has_file_name ==> r == Err::<UploadState, ImportError>(ImportError::NoFileName),
    {
        if has_file_name {
            Ok(UploadState { file_seen: true })
        } else {
            Err(ImportError::NoFileName)
        }
    }

    /// Ends the upload: some part must have carried a file.
    pub fn finish(self) -> (r: Result<(), ImportError>)
        ensures
            self.file_seen ==> r == Ok::<(), ImportError>(()),
            !self.file_seen ==> r == Err::<(), ImportError>(ImportError::NoFileUploaded),
    {
        if self.file_seen {
            Ok(())
        } else {
            Err(ImportError::NoFileUploaded)
        }
    }
}

/// The records of the outcomes that succeeded, in their order.
pub open spec fn successes(s: Seq<Result<Monster, String>>) -> Seq<Monster>
    decreases s.len(),
{
    if s.len() == 0 {
        Seq::empty()
    } else {
        let rest = successes(s.drop_last());
        match s.last() {
            Ok(m) => rest.push(m),
            Err(_) => rest,
        }
    }
}

/// Whether every outcome succeeded.
pub open spec fn all_ok(s: Seq<Result<Monster, String>>) -> bool {
    forall|i: int| 0 <= i < s.len() ==> (#[trigger] s[i]) is Ok
}

/// The fighters of a parsed file, one outcome per row. A row that failed to
/// parse aborts the whole import, as does a file without rows.
pub fn collect_parsed(rows: &Vec<Result<Monster, String>>) -> (r: Result<Vec<Monster>, ImportError>)
    ensures
        !all_ok(rows@) ==> r == Err::<Vec<Monster>, ImportError>(ImportError::IncompleteData),
        all_ok(rows@) && rows@.len() == 0 ==> r == Err::<Vec<Monster>, ImportError>(
            ImportError::NoMonsters,
        ),
        all_ok(rows@) && rows@.len() > 0 ==> r.is_ok() && r.unwrap()@.len() == rows@.len()
            && forall|i: int|
            0 <= i < rows@.len() ==> rows@[i] == Ok::<Monster, String>(#[trigger] r.unwrap()@[i]),
{
    let mut out: Vec<Monster> = Vec::new();
    let mut i: usize = 0;
    while i < rows.len()
        invariant
            i <= rows@.len(),
            all_ok(rows@.subrange(0, i as int)),
            out@.len() == i,
            forall|j: int| 0 <= j < i ==> rows@[j] == Ok::<Monster, String>(#[trigger] out@[j]),
        decreases rows@.len() - i,
    {
        match &rows[i] {
            Ok(m) => {
                out.push(m.duplicate());
            },
            Err(_) => {
                return Err(ImportError::IncompleteData);
            },
        }
        i = i + 1;
        assert(all_ok(rows@.subrange(0, i as int))) by {
            assert forall|j: int| 0 <= j < i implies (#[trigger] rows@.subrange(0, i as int)[j]) is Ok by {
                if j < i - 1 {
                    assert(rows@.subrange(0, i as int)[j] == rows@.subrange(0, i - 1)[j]);
                }
            }
        }
    }
    assert(rows@.subrange(0, rows@.len() as int) =~= rows@);
    if out.len() == 0 {
        Err(ImportError::NoMonsters)
    } else {
        Ok(out)
    }
}

/// The fighters that the store accepted, one outcome per submitted record,
/// in their order; the import failed if it accepted none.
pub fn created_monsters(results: &Vec<Result<Monster, String>>) -> (r: Result<Vec<Monster>, ImportError>)
    ensures
        successes(results@).len() == 0 ==> r == Err::<Vec<Monster>, ImportError>(
            ImportError::CreateFailed,
        ),
        successes(results@).len() > 0 ==> r.is_ok() && r.unwrap()@ == successes(results@),
{
    let mut out: Vec<Monster> = Vec::new();
    let mut i: usize = 0;
    while i < results.len()
        invariant
            i <= results@.len(),
            out@ == successes(results@.subrange(0, i as int)),
        decreases results@.len() - i,
    {
        assert(results@.subrange(0, i + 1).drop_last() =~= results@.subrange(0, i as int));
        match &results[i] {
            Ok(m) => {
                out.push(m.duplicate());
            },
            Err(_) => {},
        }
        i = i + 1;
    }
    assert(results@.subrange(0, results@.len() as int) =~= results@);
    if out.len() == 0 {
        Err(ImportError::CreateFailed)
    } else {
        Ok(out)
    }
}

} // verus!
