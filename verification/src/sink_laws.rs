//! What holds of every delivery, whatever the chat platform answers.

use crate::chat::Destination;
use crate::monitor::SnapshotView;
use crate::sink::{file_of, media_of, ChatCallView, Delivery, DeliveryMode, PhotoBatchView};
use vstd::prelude::*;

verus! {

/// Whatever the platform answers, a delivery stays well-formed, keeps its pictures
/// and its destination, and never counts fewer pictures as sent than before: what
/// was sent is not taken back.
pub proof fn lemma_run_preserves_wf(batch: PhotoBatchView, answers: Seq<bool>)
    requires
        batch.wf(),
    ensures
        batch.run(answers).wf(),
        batch.run(answers).images == batch.images,
        batch.run(answers).mode == batch.mode,
        batch.run(answers).destination == batch.destination,
        batch.run(answers).sent >= batch.sent,
        batch.failed ==> batch.run(answers).failed,
    decreases answers.len(),
{
    if answers.len() > 0 {
        lemma_run_preserves_wf(batch, answers.drop_last());
    }
}

/// Sent one by one, the pictures go out in the batch's order: after a number of calls
/// that the platform took, all of them, the next call carries the picture at the index
/// of that number, and after as many as there are pictures the batch is delivered.
pub proof fn lemma_individual_sends_in_order(
    destination: Destination,
    images: Seq<SnapshotView>,
    answers: Seq<bool>,
)
    requires
        answers.len() <= images.len(),
        0 < images.len() <= usize::MAX,
        forall|i: int| 0 <= i < answers.len() ==> answers[i],
    ensures
        ({
            let batch = PhotoBatchView::start(destination, images, DeliveryMode::Individual).run(
                answers,
            );
            &&& batch.sent == answers.len()
            &&& !batch.failed
            &&& answers.len() < images.len() ==> batch.next_call() == Some(
                ChatCallView::Photo {
                    chat_id: destination.chat_id,
                    photo: file_of(images[answers.len() as int]),
                },
            ) && batch.outcome() is None
            &&& answers.len() == images.len() ==> batch.next_call() is None && batch.outcome()
                == Some(Delivery::Delivered { images: images.len() as usize })
        }),
    decreases answers.len(),
{
    lemma_run_preserves_wf(
        PhotoBatchView::start(destination, images, DeliveryMode::Individual),
        answers,
    );
    if answers.len() > 0 {
        lemma_individual_sends_in_order(destination, images, answers.drop_last());
        assert(answers.last());
    }
}

/// Sent as a group, the pictures go out in one call that carries them all in the
/// batch's order; the batch is delivered if the platform takes the call, and has
/// sent nothing if it does not.
pub proof fn lemma_group_is_one_call(
    destination: Destination,
    images: Seq<SnapshotView>,
    delivered: bool,
)
    requires
        0 < images.len() <= usize::MAX,
    ensures
        ({
            let batch = PhotoBatchView::start(destination, images, DeliveryMode::Grouped);
            &&& batch.next_call() == Some(
                ChatCallView::MediaGroup {
                    chat_id: destination.chat_id,
                    media: media_of(images),
                },
            )
            &&& media_of(images).len() == images.len()
            &&& batch.record(delivered).next_call() is None
            &&& batch.record(delivered).outcome() == Some(
                if delivered {
                    Delivery::Delivered { images: images.len() as usize }
                } else {
                    Delivery::Failed { sent: 0 }
                },
            )
        }),
{
}

/// An empty batch makes no call, whatever answers are reported to it, and ends as
/// `NothingSent`.
pub proof fn lemma_empty_batch_makes_no_call(
    destination: Destination,
    mode: DeliveryMode,
    answers: Seq<bool>,
)
    ensures
        PhotoBatchView::start(destination, Seq::empty(), mode).run(answers).next_call() is None,
        PhotoBatchView::start(destination, Seq::empty(), mode).run(answers).outcome() == Some(
            Delivery::NothingSent,
        ),
    decreases answers.len(),
{
    if answers.len() > 0 {
        lemma_empty_batch_makes_no_call(destination, mode, answers.drop_last());
    }
}

/// A batch that holds a picture never ends as `NothingSent`: that outcome tells an
/// empty batch apart from any batch that was sent, taken or refused.
pub proof fn lemma_nothing_sent_means_empty(batch: PhotoBatchView)
    ensures
        batch.outcome() == Some(Delivery::NothingSent) <==> batch.images.len() == 0
            && batch.finished(),
        batch.images.len() > 0 && batch.finished() ==> batch.outcome() is Some
            && !(batch.outcome()->Some_0 is NothingSent),
{
}

/// A finished delivery stays as it is.
pub proof fn lemma_finished_is_final(batch: PhotoBatchView, answers: Seq<bool>)
    requires
        batch.finished(),
    ensures
        batch.run(answers) == batch,
    decreases answers.len(),
{
    if answers.len() > 0 {
        lemma_finished_is_final(batch, answers.drop_last());
    }
}

} // verus!
