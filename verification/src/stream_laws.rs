//! What holds of stream buffers over several calls.
//!
//! A run of `send_all` or `receive_all` is described by the kernel's replies to
//! its transfers, in order.

use vstd::prelude::*;

use crate::fifo::Move;
use crate::stream_buffer::StreamBufferView;
use crate::transfer::Progress;
use crate::turn::FreeRtosTaskHandle;

verus! {

/// The progress after transfers that moved these many bytes.
pub open spec fn progress_after(progress: Progress, counts: Seq<usize>) -> Progress
    decreases counts.len(),
{
    if counts.len() == 0 {
        progress
    } else {
        progress_after(progress, counts.drop_last()).advanced(counts.last() as int)
    }
}

/// The transfers all succeeded: each moved a byte at least, and none moved more
/// than was left.
pub open spec fn all_moved(progress: Progress, counts: Seq<usize>) -> bool
    decreases counts.len(),
{
    counts.len() > 0 ==> {
        &&& all_moved(progress, counts.drop_last())
        &&& 0 < counts.last() <= progress_after(progress, counts.drop_last()).remain
    }
}

/// The bytes that the kernel accepted over those transfers: of each request the
/// first `count` bytes.
pub open spec fn accepted(bytes: Seq<u8>, progress: Progress, counts: Seq<usize>) -> Seq<u8>
    decreases counts.len(),
{
    if counts.len() == 0 {
        Seq::empty()
    } else {
        let before = progress_after(progress, counts.drop_last());
        accepted(bytes, progress, counts.drop_last()) + crate::stream_buffer::unmoved(
            bytes,
            before,
        ).take(counts.last() as int)
    }
}

/// The bytes that the kernel delivered over transfers that left these windows
/// behind: of each window the first `count` bytes.
pub open spec fn delivered(windows: Seq<Seq<u8>>, counts: Seq<usize>) -> Seq<u8>
    decreases counts.len(),
{
    if counts.len() == 0 {
        Seq::empty()
    } else {
        delivered(windows.drop_last(), counts.drop_last()) + windows.last().take(
            counts.last() as int,
        )
    }
}

/// The kernel left each window as long as it was.
pub open spec fn windows_fit(
    progress: Progress,
    windows: Seq<Seq<u8>>,
    counts: Seq<usize>,
) -> bool
    decreases counts.len(),
{
    &&& windows.len() == counts.len()
    &&& counts.len() > 0 ==> {
        &&& windows_fit(progress, windows.drop_last(), counts.drop_last())
        &&& windows.last().len() == progress_after(progress, counts.drop_last()).remain
    }
}

/// The receiver's bytes after those transfers: each replaced the part that had
/// not been filled yet by what the kernel left in the window.
pub open spec fn filled(
    bytes: Seq<u8>,
    progress: Progress,
    windows: Seq<Seq<u8>>,
    counts: Seq<usize>,
) -> Seq<u8>
    decreases counts.len(),
{
    if counts.len() == 0 {
        bytes
    } else {
        crate::stream_buffer::moved(
            filled(bytes, progress, windows.drop_last(), counts.drop_last()),
            progress_after(progress, counts.drop_last()),
        ) + windows.last()
    }
}

/// Every transfer of a run brings it closer to its end: a run has at most as
/// many transfers as it has bytes.
pub proof fn law_runs_end(progress: Progress, counts: Seq<usize>)
    requires
        all_moved(progress, counts),
    ensures
        counts.len() + progress_after(progress, counts).remain <= progress.remain,
    decreases counts.len(),
{
    if counts.len() > 0 {
        law_runs_end(progress, counts.drop_last());
    }
}

/// `send_all` sends the bytes in order, none lost and none twice: at any time
/// what the kernel accepted is the part of `bytes` that counts as moved, and
/// when nothing is left it is `bytes`.
pub proof fn law_send_all_sends_bytes_in_order(
    bytes: Seq<u8>,
    progress: Progress,
    counts: Seq<usize>,
)
    requires
        progress.remain == bytes.len(),
        all_moved(progress, counts),
    ensures
        progress_after(progress, counts).remain <= bytes.len(),
        accepted(bytes, progress, counts) == crate::stream_buffer::moved(
            bytes,
            progress_after(progress, counts),
        ),
        accepted(bytes, progress, counts) + crate::stream_buffer::unmoved(
            bytes,
            progress_after(progress, counts),
        ) == bytes,
        progress_after(progress, counts).remain == 0 ==> accepted(bytes, progress, counts)
            == bytes,
    decreases counts.len(),
{
    if counts.len() > 0 {
        law_send_all_sends_bytes_in_order(bytes, progress, counts.drop_last());
    }
}

/// `receive_all` fills the bytes in order: at any time the part that counts as
/// moved is what the kernel delivered, and when nothing is left that is all of it.
pub proof fn law_receive_all_fills_bytes_in_order(
    bytes: Seq<u8>,
    progress: Progress,
    windows: Seq<Seq<u8>>,
    counts: Seq<usize>,
)
    requires
        progress.remain == bytes.len(),
        all_moved(progress, counts),
        windows_fit(progress, windows, counts),
    ensures
        progress_after(progress, counts).remain <= bytes.len(),
        filled(bytes, progress, windows, counts).len() == bytes.len(),
        crate::stream_buffer::moved(
            filled(bytes, progress, windows, counts),
            progress_after(progress, counts),
        ) == delivered(windows, counts),
        progress_after(progress, counts).remain == 0 ==> filled(bytes, progress, windows, counts)
            == delivered(windows, counts),
    decreases counts.len(),
{
    if counts.len() > 0 {
        law_receive_all_fills_bytes_in_order(
            bytes,
            progress,
            windows.drop_last(),
            counts.drop_last(),
        );
    }
}

/// The kernel wrote nothing beyond the bytes that it delivered: the rest of each
/// window is as it was before that transfer.
pub open spec fn windows_kept(
    bytes: Seq<u8>,
    progress: Progress,
    windows: Seq<Seq<u8>>,
    counts: Seq<usize>,
) -> bool
    decreases counts.len(),
{
    counts.len() > 0 ==> {
        let before = filled(bytes, progress, windows.drop_last(), counts.drop_last());
        &&& windows_kept(bytes, progress, windows.drop_last(), counts.drop_last())
        &&& windows.last().skip(counts.last() as int) == crate::stream_buffer::unmoved(
            before,
            progress_after(progress, counts.drop_last()),
        ).skip(counts.last() as int)
    }
}

/// `receive_all` keeps what it has not filled: at any time, so also when it stops
/// at an error, the part that does not count as moved is as the receiver gave it.
pub proof fn law_receive_all_keeps_the_rest(
    bytes: Seq<u8>,
    progress: Progress,
    windows: Seq<Seq<u8>>,
    counts: Seq<usize>,
)
    requires
        progress.remain == bytes.len(),
        all_moved(progress, counts),
        windows_fit(progress, windows, counts),
        windows_kept(bytes, progress, windows, counts),
    ensures
        crate::stream_buffer::unmoved(
            filled(bytes, progress, windows, counts),
            progress_after(progress, counts),
        ) == crate::stream_buffer::unmoved(bytes, progress_after(progress, counts)),
    decreases counts.len(),
{
    if counts.len() > 0 {
        let earlier = counts.drop_last();
        let count = counts.last() as int;
        let before = filled(bytes, progress, windows.drop_last(), earlier);
        let after = filled(bytes, progress, windows, counts);
        let then = progress_after(progress, earlier);
        let now = progress_after(progress, counts);
        law_receive_all_keeps_the_rest(bytes, progress, windows.drop_last(), earlier);
        law_receive_all_fills_bytes_in_order(bytes, progress, windows.drop_last(), earlier);
        law_receive_all_fills_bytes_in_order(bytes, progress, windows, counts);
        assert(crate::stream_buffer::unmoved(after, now) =~= windows.last().skip(count));
        assert(crate::stream_buffer::unmoved(bytes, then).skip(count)
            =~= crate::stream_buffer::unmoved(bytes, now));
    }
}

/// Bytes go in, bytes come out: through a kernel that keeps order, however its
/// transfers interleave, what `receive_all` has filled so far is the beginning of
/// what `send_all` was given. When all bytes are sent and a receiver that asked
/// for as many has them, they are the bytes that were sent and the stream is
/// empty again.
pub proof fn law_bytes_come_out_as_they_went_in(
    history: Seq<Move<u8>>,
    sent: Seq<u8>,
    sending: Progress,
    accepts: Seq<usize>,
    room: Seq<u8>,
    receiving: Progress,
    windows: Seq<Seq<u8>>,
    delivers: Seq<usize>,
)
    requires
        sending.remain == sent.len(),
        all_moved(sending, accepts),
        receiving.remain == room.len(),
        all_moved(receiving, delivers),
        windows_fit(receiving, windows, delivers),
        crate::fifo::keeps_order(history),
        crate::fifo::entered(history) == accepted(sent, sending, accepts),
        crate::fifo::left(history) == delivered(windows, delivers),
    ensures
        crate::stream_buffer::moved(
            filled(room, receiving, windows, delivers),
            progress_after(receiving, delivers),
        ).is_prefix_of(sent),
        crate::stream_buffer::moved(
            filled(room, receiving, windows, delivers),
            progress_after(receiving, delivers),
        ) + crate::fifo::stored(history) == crate::stream_buffer::moved(
            sent,
            progress_after(sending, accepts),
        ),
        progress_after(receiving, delivers).remain == 0 && room.len() == sent.len() ==> {
            &&& filled(room, receiving, windows, delivers) == sent
            &&& crate::fifo::stored(history) == Seq::<u8>::empty()
        },
{
    law_send_all_sends_bytes_in_order(sent, sending, accepts);
    law_receive_all_fills_bytes_in_order(room, receiving, windows, delivers);
    crate::fifo::law_first_in_first_out(history);
}

/// Sending and receiving do not disturb each other, and neither changes the
/// buffer: recording who uses one side keeps the other side, the handle and the
/// sizes, and the two sides may be recorded in either order.
pub proof fn law_sides_are_independent(
    view: StreamBufferView,
    tx_task: Option<FreeRtosTaskHandle>,
    rx_task: Option<FreeRtosTaskHandle>,
)
    ensures
        view.with_tx(tx_task).rx_task == view.rx_task,
        view.with_rx(rx_task).tx_task == view.tx_task,
        view.with_tx(tx_task).with_rx(rx_task) == view.with_rx(rx_task).with_tx(tx_task),
        view.with_tx(tx_task).with_rx(rx_task) == (StreamBufferView { tx_task, rx_task, ..view }),
        view.wf() ==> view.with_tx(tx_task).with_rx(rx_task).wf(),
{
}

/// A buffer made from another's raw handle is that buffer, and has that raw handle.
pub proof fn law_raw_handle_round_trip(view: StreamBufferView)
    ensures
        ({
            let (handle, max_size, trigger_size, tx_task, rx_task) = view.raw();
            &&& StreamBufferView::from_raw(handle, max_size, trigger_size, tx_task, rx_task)
                == view
            &&& StreamBufferView::from_raw(
                handle,
                max_size,
                trigger_size,
                tx_task,
                rx_task,
            ).raw() == view.raw()
        }),
{
}

} // verus!
