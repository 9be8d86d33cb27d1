//! Guest memory queries: the size of a read request, and the two-call protocol that
//! fetches the layout of guest physical memory.

use vstd::prelude::*;

use crate::vmsavedstatedumpdefs::GpaMemoryChunk;
use crate::result_code::{
    hresult_to_result_code, result_code_of, status_result, ResultCode, E_OUTOFMEMORY, S_OK,
};

verus! {

/// How many bytes a read into a buffer of `buffer_len` bytes asks for: the whole buffer,
/// or as much of it as a 32-bit size can say.
pub fn read_request_size(buffer_len: usize) -> (r: u32)
    ensures
        r as int == if buffer_len <= u32::MAX {
            buffer_len as int
        } else {
            u32::MAX as int
        },
{
    if buffer_len <= u32::MAX as usize {
        buffer_len as u32
    } else {
        u32::MAX
    }
}

/// What the first call of the chunk-layout query, made without a buffer, leads to: too
/// small a buffer (`E_OUTOFMEMORY`) is how the chunk count is signaled, and that many
/// chunks are then fetched; every other status, success included, is passed back as the
/// query's error and no second call is made. A count that does not fit in memory is
/// `OutOfMemory`.
pub open spec fn sizing_step(hresult: i32, chunk_count: u64) -> Result<usize, ResultCode> {
    if hresult == E_OUTOFMEMORY {
        if chunk_count <= usize::MAX {
            Ok(chunk_count as usize)
        } else {
            Err(ResultCode::OutOfMemory)
        }
    } else {
        Err(result_code_of(hresult))
    }
}

/// Decides what follows the first call of the chunk-layout query: the number of chunks to
/// fetch with the second call, or the query's error.
pub fn after_sizing_call(hresult: i32, chunk_count: u64) -> (r: Result<usize, ResultCode>)
    ensures
        r == sizing_step(hresult, chunk_count),
{
    match hresult_to_result_code(hresult) {
        ResultCode::OutOfMemory => {
            if chunk_count <= usize::MAX as u64 {
                Ok(chunk_count as usize)
            } else {
                Err(ResultCode::OutOfMemory)
            }
        },
        error => Err(error),
    }
}

/// The outcome of the whole chunk-layout query. A first status other than the count
/// signal is the query's error, and no second call is made. Once a count that fits in
/// memory is signaled, the second call is handed a buffer of exactly that many chunks;
/// the query then succeeds exactly when the second call does, and gives its page size and
/// the whole buffer it filled, of the signaled length.
pub proof fn lemma_layout_has_signaled_count(
    sizing_hresult: i32,
    chunk_count: u64,
    fetch_hresult: i32,
    page_size: u64,
    chunks: Seq<GpaMemoryChunk>,
)
    requires
        sizing_step(sizing_hresult, chunk_count) is Ok ==> chunks.len() == sizing_step(
            sizing_hresult,
            chunk_count,
        )->Ok_0,
    ensures
        sizing_hresult != E_OUTOFMEMORY ==> sizing_step(sizing_hresult, chunk_count) == Err::<
            usize,
            ResultCode,
        >(result_code_of(sizing_hresult)),
        sizing_hresult == E_OUTOFMEMORY && chunk_count <= usize::MAX ==> {
            &&& sizing_step(sizing_hresult, chunk_count) == Ok::<usize, ResultCode>(
                chunk_count as usize,
            )
            &&& (status_result(fetch_hresult, (page_size, chunks)) is Ok <==> fetch_hresult
                == S_OK)
            &&& fetch_hresult != S_OK ==> status_result(fetch_hresult, (page_size, chunks))
                == Err::<(u64, Seq<GpaMemoryChunk>), ResultCode>(result_code_of(fetch_hresult))
            &&& fetch_hresult == S_OK ==> status_result(fetch_hresult, (page_size, chunks))
                == Ok::<(u64, Seq<GpaMemoryChunk>), ResultCode>((page_size, chunks))
                && chunks.len() == chunk_count
        },
{
}

} // verus!
