//! The chat delivery sink: which calls to the chat platform deliver a batch of pictures
//! or a text, and what their results add up to.
//!
//! The calls themselves are made by the caller, one at a time: it asks for the next
//! call, makes it, and reports whether the platform took it.

use crate::chat::Destination;
use crate::error::RelayError;
use crate::monitor::{snapshot_views, Snapshot, SnapshotView};
use crate::telegram::{memory_file, photo, photo_of, upload};
use teloxide::types::{InputFile, InputMedia};
use vstd::prelude::*;

verus! {

/// How a batch of pictures is handed to the chat platform.
#[derive(Clone, Copy, Debug, PartialEq, Eq, Structural)]
pub enum DeliveryMode {
    /// All pictures in one grouped media message.
    Grouped,
    /// One message per picture, in the batch's order.
    Individual,
}

impl Default for DeliveryMode {
    /// The chat platform takes grouped media messages.
    fn default() -> (mode: Self)
        ensures
            mode == DeliveryMode::Grouped,
    {
        DeliveryMode::Grouped
    }
}

/// What became of a batch that was handed to the sink.
#[derive(Clone, Copy, Debug, PartialEq, Eq, Structural)]
pub enum Delivery {
    /// The batch was empty: nothing was sent and nothing went wrong.
    NothingSent,
    /// Every picture reached the chat.
    Delivered { images: usize },
    /// The platform refused a call after `sent` pictures had reached the chat.
    Failed { sent: usize },
}

/// One call to the chat platform.
#[derive(Debug, PartialEq, Eq)]
pub enum ChatCall {
    /// Send these media items as one group.
    MediaGroup { chat_id: i64, media: Vec<InputMedia> },
    /// Send one picture.
    Photo { chat_id: i64, photo: InputFile },
    /// Send a text message.
    Text { chat_id: i64, text: String },
}

/// A `ChatCall` as plain mathematical values.
pub enum ChatCallView {
    MediaGroup { chat_id: i64, media: Seq<InputMedia> },
    Photo { chat_id: i64, photo: InputFile },
    Text { chat_id: i64, text: Seq<char> },
}

impl View for ChatCall {
    type V = ChatCallView;

    open spec fn view(&self) -> ChatCallView {
        match *self {
            ChatCall::MediaGroup { chat_id, media } => ChatCallView::MediaGroup {
                chat_id,
                media: media@,
            },
            ChatCall::Photo { chat_id, photo } => ChatCallView::Photo { chat_id, photo },
            ChatCall::Text { chat_id, text } => ChatCallView::Text { chat_id, text: text@ },
        }
    }
}

/// The view of an optional call.
pub open spec fn optional_call(call: Option<ChatCall>) -> Option<ChatCallView> {
    match call {
        Some(c) => Some(c@),
        None => None,
    }
}

/// The upload for a picture: its bytes under its monitor's identifier as file name.
pub open spec fn file_of(picture: SnapshotView) -> InputFile {
    memory_file(picture.monitor_id, picture.bytes)
}

/// The media items for a batch of pictures, in the batch's order.
pub open spec fn media_of(pictures: Seq<SnapshotView>) -> Seq<InputMedia> {
    Seq::new(pictures.len(), |i: int| photo_of(file_of(pictures[i])))
}

/// A delivery under way, as plain mathematical values.
pub struct PhotoBatchView {
    pub destination: Destination,
    pub mode: DeliveryMode,
    pub images: Seq<SnapshotView>,
    /// How many pictures have reached the chat.
    pub sent: nat,
    /// Whether the platform has refused a call.
    pub failed: bool,
}

impl PhotoBatchView {
    /// No more pictures are counted as sent than there are, and a grouped batch has
    /// gone whole or not at all.
    pub open spec fn wf(self) -> bool {
        &&& self.sent <= self.images.len()
        &&& self.mode == DeliveryMode::Grouped ==> self.sent == 0 || self.sent
            == self.images.len()
    }

    /// The delivery before any call.
    pub open spec fn start(
        destination: Destination,
        images: Seq<SnapshotView>,
        mode: DeliveryMode,
    ) -> PhotoBatchView {
        PhotoBatchView { destination, mode, images, sent: 0, failed: false }
    }

    /// No call is left to make: a call was refused, or every picture has been sent.
    /// An empty batch is finished from the start.
    pub open spec fn finished(self) -> bool {
        self.failed || self.sent == self.images.len()
    }

    /// The call to make next, if any.
    pub open spec fn next_call(self) -> Option<ChatCallView> {
        if self.finished() {
            None
        } else {
            match self.mode {
                DeliveryMode::Grouped => Some(
                    ChatCallView::MediaGroup {
                        chat_id: self.destination.chat_id,
                        media: media_of(self.images),
                    },
                ),
                DeliveryMode::Individual => Some(
                    ChatCallView::Photo {
                        chat_id: self.destination.chat_id,
                        photo: file_of(self.images[self.sent as int]),
                    },
                ),
            }
        }
    }

    /// The delivery after the platform's answer to the call that `next_call` gave.
    /// What has been sent stays sent. An answer that comes when no call is left changes
    /// nothing.
    pub open spec fn record(self, delivered: bool) -> PhotoBatchView {
        if self.finished() {
            self
        } else if !delivered {
            PhotoBatchView { failed: true, ..self }
        } else {
            match self.mode {
                DeliveryMode::Grouped => PhotoBatchView { sent: self.images.len(), ..self },
                DeliveryMode::Individual => PhotoBatchView { sent: self.sent + 1, ..self },
            }
        }
    }

    /// What became of the batch, once no call is left.
    pub open spec fn outcome(self) -> Option<Delivery> {
        if !self.finished() {
            None
        } else if self.images.len() == 0 {
            Some(Delivery::NothingSent)
        } else if self.failed {
            Some(Delivery::Failed { sent: self.sent as usize })
        } else {
            Some(Delivery::Delivered { images: self.images.len() as usize })
        }
    }

    /// The delivery after a series of answers.
    pub open spec fn run(self, answers: Seq<bool>) -> PhotoBatchView
        decreases answers.len(),
    {
        if answers.len() == 0 {
            self
        } else {
            self.run(answers.drop_last()).record(answers.last())
        }
    }
}

/// The delivery of one batch of pictures to one conversation.
#[derive(Debug)]
pub struct PhotoBatch {
    destination: Destination,
    mode: DeliveryMode,
    images: Vec<Snapshot>,
    sent: usize,
    failed: bool,
}

impl View for PhotoBatch {
    type V = PhotoBatchView;

    closed spec fn view(&self) -> PhotoBatchView {
        PhotoBatchView {
            destination: self.destination,
            mode: self.mode,
            images: snapshot_views(self.images@),
            sent: self.sent as nat,
            failed: self.failed,
        }
    }
}

/// Takes a batch of pictures for delivery to `destination`. Nothing is sent yet.
pub fn send_photo_batch(
    destination: Destination,
    images: Vec<Snapshot>,
    mode: DeliveryMode,
) -> (batch: PhotoBatch)
    ensures
        batch@ == PhotoBatchView::start(destination, snapshot_views(images@), mode),
        batch@.wf(),
{
    PhotoBatch { destination, mode, images, sent: 0, failed: false }
}

impl PhotoBatch {
    /// The call to make next, or `None` when none is left.
    pub fn next_call(&self) -> (call: Option<ChatCall>)
        requires
            self@.wf(),
        ensures
            optional_call(call) == self@.next_call(),
    {
        if self.failed || self.sent == self.images.len() {
            return None;
        }
        match self.mode {
            DeliveryMode::Grouped => {
                let mut media: Vec<InputMedia> = Vec::new();
                let mut i: usize = 0;
                while i < self.images.len()
                    invariant
                        i <= self.images.len(),
                        media@ =~= media_of(self@.images).take(i as int),
                    decreases self.images.len() - i,
                {
                    let picture = &self.images[i];
                    let file = upload(&picture.monitor_id, &picture.bytes);
                    assert(file == file_of(self@.images[i as int]));
                    media.push(photo(file));
                    i += 1;
                }
                assert(media@ =~= media_of(self@.images));
                Some(ChatCall::MediaGroup { chat_id: self.destination.chat_id, media })
            },
            DeliveryMode::Individual => {
                let picture = &self.images[self.sent];
                let file = upload(&picture.monitor_id, &picture.bytes);
                assert(file == file_of(self@.images[self.sent as int]));
                Some(ChatCall::Photo { chat_id: self.destination.chat_id, photo: file })
            },
        }
    }

    /// Takes the platform's answer to the call that `next_call` gave: `delivered` says
    /// whether the platform took it.
    pub fn record(&mut self, delivered: bool)
        requires
            old(self)@.wf(),
        ensures
            final(self)@ == old(self)@.record(delivered),
            final(self)@.wf(),
    {
        if self.failed || self.sent == self.images.len() {
            return ;
        }
        if !delivered {
            self.failed = true;
        } else {
            match self.mode {
                DeliveryMode::Grouped => {
                    self.sent = self.images.len();
                },
                DeliveryMode::Individual => {
                    self.sent = self.sent + 1;
                },
            }
        }
    }

    /// What became of the batch, or `None` while a call is left to make.
    pub fn outcome(&self) -> (outcome: Option<Delivery>)
        requires
            self@.wf(),
        ensures
            outcome == self@.outcome(),
    {
        if !(self.failed || self.sent == self.images.len()) {
            None
        } else if self.images.len() == 0 {
            Some(Delivery::NothingSent)
        } else if self.failed {
            Some(Delivery::Failed { sent: self.sent })
        } else {
            Some(Delivery::Delivered { images: self.images.len() })
        }
    }
}

/// The call that sends `text` to `destination`.
pub fn send_text(destination: Destination, text: String) -> (call: ChatCall)
    ensures
        call@ == (ChatCallView::Text { chat_id: destination.chat_id, text: text@ }),
{
    ChatCall::Text { chat_id: destination.chat_id, text }
}

/// What the platform's answer to a text message amounts to.
pub fn text_sent(delivered: bool) -> (result: Result<(), RelayError>)
    ensures
        result == if delivered {
            Ok::<(), RelayError>(())
        } else {
            Err::<(), RelayError>(RelayError::ChatDeliveryError)
        },
{
    if delivered {
        Ok(())
    } else {
        Err(RelayError::ChatDeliveryError)
    }
}

} // verus!
