use vstd::prelude::*;

use crate::error::DownloadError;
use crate::gate::MIN_PUBLIC_DOWNLOAD_LEVEL;
use crate::handle::lemma_handle_injective;
use crate::provider::{begun, published_at, written_at, MemoryProvider, ProviderCall};
use crate::session::{
    check_stream, complete_begin, is_begin_record, open_mode_for, plan_begin, plan_finish,
    plan_write, AndroidDownloadBeginArgs, AndroidDownloadFinishArgs, AndroidDownloadWriteArgs,
    OpenMode,
};

verus! {

/// `Begin` against an in-memory provider: below the capability threshold the
/// provider is not called at all; otherwise one pending entry is inserted and
/// its handle returned.
pub fn begin_download(
    provider: &mut MemoryProvider,
    level: i32,
    args: AndroidDownloadBeginArgs,
) -> (r: Result<String, DownloadError>)
    requires
        old(provider).wf(),
    ensures
        final(provider).wf(),
        level < MIN_PUBLIC_DOWNLOAD_LEVEL ==> r == Err::<String, DownloadError>(DownloadError::UnsupportedPlatform)
            && *final(provider) == *old(provider),
        level >= MIN_PUBLIC_DOWNLOAD_LEVEL ==> final(provider).calls@ == old(provider).calls@.push(ProviderCall::Insert),
        level >= MIN_PUBLIC_DOWNLOAD_LEVEL ==> (r is Ok <==> old(provider).next_id < u64::MAX),
        level >= MIN_PUBLIC_DOWNLOAD_LEVEL && old(provider).next_id == u64::MAX
            ==> r == Err::<String, DownloadError>(DownloadError::EntryCreationFailed)
            && final(provider).entries@ == old(provider).entries@,
        r is Ok ==> begun(*old(provider), *final(provider), r->Ok_0@)
            && is_begin_record(final(provider).entries@.last().record, args),
{
    let record = match plan_begin(level, args) {
        Ok(record) => record,
        Err(e) => return Err(e),
    };
    let inserted = provider.insert(record);
    complete_begin(inserted)
}

/// `Write` against an in-memory provider: opens the entry in truncate mode,
/// or in append mode when `append` is `Some(true)`, then writes all bytes.
pub fn write_download(provider: &mut MemoryProvider, args: AndroidDownloadWriteArgs) -> (r: Result<(), DownloadError>)
    requires
        old(provider).wf(),
    ensures
        final(provider).wf(),
        final(provider).calls@ == old(provider).calls@.push(
            ProviderCall::OpenOutputStream(open_mode_for(args.append)),
        ),
        r is Ok <==> old(provider).has_handle(args.uri@),
        r is Err ==> r == Err::<(), DownloadError>(DownloadError::StreamOpenFailed)
            && final(provider).entries@ == old(provider).entries@,
        forall|i: int| 0 <= i < old(provider).entries@.len() && #[trigger] old(provider).entries@[i].uri@ == args.uri@
            ==> written_at(*old(provider), *final(provider), i, open_mode_for(args.append), args.data@),
{
    let ghost before = *old(provider);
    let req = plan_write(args);
    let opened = provider.open_output_stream(&req.uri, req.mode);
    if let Err(e) = check_stream(opened.is_none()) {
        return Err(e);
    }
    let index = opened.unwrap();
    let ghost middle = *provider;
    provider.write_stream(index, req.data);
    proof {
        let i = index as int;
        match req.mode {
            OpenMode::Truncate => {
                assert(Seq::<u8>::empty() + args.data@ =~= args.data@);
            },
            OpenMode::Append => {
                assert(before.entries@[i].content@ + Seq::<u8>::empty() =~= before.entries@[i].content@);
            },
        }
        assert forall|k: int| 0 <= k < before.entries@.len() && #[trigger] before.entries@[k].uri@ == args.uri@
            implies written_at(before, *provider, k, open_mode_for(args.append), args.data@) by {
            before.lemma_handles_unique(k, i);
        }
    }
    Ok(())
}

/// `Finish` against an in-memory provider: below the capability threshold it
/// succeeds without calling the provider; otherwise it clears the pending
/// flag of the entry, and succeeds whether or not an entry matched.
pub fn finish_download(
    provider: &mut MemoryProvider,
    level: i32,
    args: AndroidDownloadFinishArgs,
) -> (r: Result<(), DownloadError>)
    requires
        old(provider).wf(),
    ensures
        final(provider).wf(),
        r is Ok,
        level < MIN_PUBLIC_DOWNLOAD_LEVEL ==> *final(provider) == *old(provider),
        level >= MIN_PUBLIC_DOWNLOAD_LEVEL ==> final(provider).calls@ == old(provider).calls@.push(ProviderCall::Update),
        level >= MIN_PUBLIC_DOWNLOAD_LEVEL && !old(provider).has_handle(args.uri@)
            ==> final(provider).entries@ == old(provider).entries@,
        level >= MIN_PUBLIC_DOWNLOAD_LEVEL ==> forall|i: int| 0 <= i < old(provider).entries@.len()
            && #[trigger] old(provider).entries@[i].uri@ == args.uri@
            ==> published_at(*old(provider), *final(provider), i),
{
    match plan_finish(level, args) {
        None => Ok(()),
        Some(update) => {
            let _rows = provider.update_pending(&update.uri, update.pending);
            Ok(())
        },
    }
}

/// Two sessions begun one after the other get distinct handles, and a write
/// through the first handle leaves the second session's entry as it was.
pub proof fn sessions_do_not_interfere(
    initial: MemoryProvider,
    after_first: MemoryProvider,
    after_second: MemoryProvider,
    after_write: MemoryProvider,
    h1: Seq<char>,
    h2: Seq<char>,
    i: int,
    mode: OpenMode,
    data: Seq<u8>,
)
    requires
        initial.wf(),
        begun(initial, after_first, h1),
        begun(after_first, after_second, h2),
        after_second.entries@[i].uri@ == h1,
        written_at(after_second, after_write, i, mode, data),
    ensures
        h1 != h2,
        i == initial.entries@.len(),
        after_write.entries@[i].content@ == match mode {
            OpenMode::Truncate => data,
            OpenMode::Append => after_second.entries@[i].content@ + data,
        },
        after_write.entries@.last() == after_second.entries@.last(),
        after_write.entries@.last().uri@ == h2,
{
    if h1 == h2 {
        lemma_handle_injective(initial.next_id as nat, after_first.next_id as nat);
    }
    let n = initial.entries@.len() as int;
    assert(after_second.entries@[n] == after_first.entries@[n]);
    if i != n {
        if i == n + 1 {
            lemma_handle_injective(initial.next_id as nat, after_first.next_id as nat);
        } else {
            assert(after_second.entries@[i] == initial.entries@[i]);
            lemma_handle_injective(initial.entries@[i].id as nat, initial.next_id as nat);
        }
    }
}

} // verus!
