use camera_relay::chat::{ChatKind, Destination};
use camera_relay::error::RelayError;
use camera_relay::monitor::Snapshot;
use camera_relay::sink::{send_photo_batch, send_text, text_sent, ChatCall, Delivery, DeliveryMode};
use teloxide::types::{InputFile, InputMedia, InputMediaPhoto};

fn chat() -> Destination {
    Destination { chat_id: -1001234 }
}

fn picture(id: &str, bytes: &[u8]) -> Snapshot {
    Snapshot::new(id.to_string(), bytes.to_vec())
}

fn file(id: &str, bytes: &[u8]) -> InputFile {
    InputFile::memory(id.to_string(), bytes.to_vec())
}

fn media(id: &str, bytes: &[u8]) -> InputMedia {
    InputMedia::Photo(InputMediaPhoto::new(file(id, bytes)))
}

#[test]
fn an_empty_batch_makes_no_call_and_says_so() {
    let mut batch = send_photo_batch(chat(), Vec::new(), DeliveryMode::Grouped);
    assert_eq!(batch.next_call(), None);
    assert_eq!(batch.outcome(), Some(Delivery::NothingSent));
    batch.record(true);
    assert_eq!(batch.next_call(), None);
    assert_eq!(batch.outcome(), Some(Delivery::NothingSent));
    batch.record(false);
    assert_eq!(batch.next_call(), None);
    assert_eq!(batch.outcome(), Some(Delivery::NothingSent));
}

#[test]
fn an_empty_batch_sent_one_by_one_makes_no_call_either() {
    let batch = send_photo_batch(chat(), Vec::new(), DeliveryMode::Individual);
    assert_eq!(batch.next_call(), None);
    assert_eq!(batch.outcome(), Some(Delivery::NothingSent));
}

#[test]
fn nothing_sent_differs_from_sent_and_from_refused() {
    assert_ne!(Delivery::NothingSent, Delivery::Delivered { images: 0 });
    assert_ne!(Delivery::NothingSent, Delivery::Failed { sent: 0 });
    let mut refused = send_photo_batch(chat(), vec![picture("a", &[1])], DeliveryMode::Grouped);
    refused.next_call();
    refused.record(false);
    assert_eq!(refused.outcome(), Some(Delivery::Failed { sent: 0 }));
}

#[test]
fn one_picture_labelled_by_its_monitor_goes_in_one_call() {
    let images = vec![picture("cam1", &[0xff, 0xd8, 0xff, 0xd9])];
    let mut batch = send_photo_batch(chat(), images, DeliveryMode::Grouped);
    assert_eq!(batch.outcome(), None);
    assert_eq!(
        batch.next_call(),
        Some(ChatCall::MediaGroup {
            chat_id: -1001234,
            media: vec![media("cam1", &[0xff, 0xd8, 0xff, 0xd9])]
        })
    );
    batch.record(true);
    assert_eq!(batch.next_call(), None);
    assert_eq!(batch.outcome(), Some(Delivery::Delivered { images: 1 }));
}

#[test]
fn a_grouped_batch_is_one_call_with_every_picture_in_order() {
    let images = vec![
        picture("north", &[1]),
        picture("yard", &[2, 2]),
        picture("door", &[3, 3, 3]),
    ];
    let mut batch = send_photo_batch(chat(), images, DeliveryMode::Grouped);
    let call = batch.next_call();
    assert_eq!(
        call,
        Some(ChatCall::MediaGroup {
            chat_id: -1001234,
            media: vec![
                media("north", &[1]),
                media("yard", &[2, 2]),
                media("door", &[3, 3, 3])
            ]
        })
    );
    assert_eq!(batch.next_call(), call);
    batch.record(true);
    assert_eq!(batch.next_call(), None);
    assert_eq!(batch.outcome(), Some(Delivery::Delivered { images: 3 }));
    batch.record(false);
    assert_eq!(batch.outcome(), Some(Delivery::Delivered { images: 3 }));
}

#[test]
fn media_items_carry_no_caption() {
    let images = vec![picture("cam1", &[7])];
    let batch = send_photo_batch(chat(), images, DeliveryMode::Grouped);
    match batch.next_call() {
        Some(ChatCall::MediaGroup { media, .. }) => match &media[0] {
            InputMedia::Photo(photo) => {
                assert_eq!(photo.caption, None);
                assert_eq!(photo.parse_mode, None);
                assert_eq!(photo.caption_entities, None);
                match &photo.media {
                    InputFile::Memory { file_name, data } => {
                        assert_eq!(file_name, "cam1");
                        assert_eq!(data.as_ref(), &[7u8][..]);
                    }
                    other => panic!("not an upload from memory: {:?}", other),
                }
            }
            other => panic!("not a photo: {:?}", other),
        },
        other => panic!("not a media group: {:?}", other),
    }
}

#[test]
fn a_refused_group_has_sent_nothing() {
    let images = vec![picture("a", &[1]), picture("b", &[2])];
    let mut batch = send_photo_batch(chat(), images, DeliveryMode::Grouped);
    assert!(batch.next_call().is_some());
    batch.record(false);
    assert_eq!(batch.next_call(), None);
    assert_eq!(batch.outcome(), Some(Delivery::Failed { sent: 0 }));
    batch.record(true);
    assert_eq!(batch.outcome(), Some(Delivery::Failed { sent: 0 }));
}

#[test]
fn individual_sends_go_one_by_one_in_order() {
    let images = vec![picture("a", &[1]), picture("b", &[2]), picture("c", &[3])];
    let mut batch = send_photo_batch(chat(), images, DeliveryMode::Individual);
    assert_eq!(
        batch.next_call(),
        Some(ChatCall::Photo {
            chat_id: -1001234,
            photo: file("a", &[1])
        })
    );
    assert_eq!(batch.outcome(), None);
    batch.record(true);
    assert_eq!(
        batch.next_call(),
        Some(ChatCall::Photo {
            chat_id: -1001234,
            photo: file("b", &[2])
        })
    );
    batch.record(true);
    assert_eq!(
        batch.next_call(),
        Some(ChatCall::Photo {
            chat_id: -1001234,
            photo: file("c", &[3])
        })
    );
    assert_eq!(batch.outcome(), None);
    batch.record(true);
    assert_eq!(batch.next_call(), None);
    assert_eq!(batch.outcome(), Some(Delivery::Delivered { images: 3 }));
}

#[test]
fn a_refused_individual_send_reports_what_was_sent_before() {
    let images = vec![picture("a", &[1]), picture("b", &[2]), picture("c", &[3])];
    let mut batch = send_photo_batch(chat(), images, DeliveryMode::Individual);
    batch.record(true);
    batch.record(true);
    batch.record(false);
    assert_eq!(batch.next_call(), None);
    assert_eq!(batch.outcome(), Some(Delivery::Failed { sent: 2 }));
    batch.record(true);
    assert_eq!(batch.outcome(), Some(Delivery::Failed { sent: 2 }));
}

#[test]
fn a_text_is_one_call_to_the_destination() {
    assert_eq!(
        send_text(chat(), "armed".to_string()),
        ChatCall::Text {
            chat_id: -1001234,
            text: "armed".to_string()
        }
    );
}

#[test]
fn a_refused_text_is_a_chat_delivery_error() {
    assert_eq!(text_sent(true), Ok(()));
    assert_eq!(text_sent(false), Err(RelayError::ChatDeliveryError));
}

#[test]
fn a_person_is_labelled_by_name_and_username() {
    let kind = ChatKind::Private {
        username: Some("ada".to_string()),
        first_name: Some("Ada".to_string()),
        last_name: Some("Lovelace".to_string()),
    };
    assert_eq!(kind.label(), "Ada Lovelace <ada>");
}

#[test]
fn unknown_parts_of_a_persons_label_are_left_empty() {
    let kind = ChatKind::Private {
        username: None,
        first_name: Some("Ada".to_string()),
        last_name: None,
    };
    assert_eq!(kind.label(), "Ada  <>");
    let kind = ChatKind::Private {
        username: None,
        first_name: None,
        last_name: None,
    };
    assert_eq!(kind.label(), "  <>");
}

#[test]
fn a_group_is_labelled_by_its_title() {
    let kind = ChatKind::Public {
        title: Some("Front gate".to_string()),
    };
    assert_eq!(kind.label(), "Front gate");
    let kind = ChatKind::Public { title: None };
    assert_eq!(kind.label(), "");
}

#[test]
fn batches_are_grouped_by_default() {
    assert_eq!(DeliveryMode::default(), DeliveryMode::Grouped);
}
