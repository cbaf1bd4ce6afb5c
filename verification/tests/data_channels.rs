use wrtc::data_channel::{
    receive, ChannelChange, Closing, DataChannel, DataChannelSinkState, DataChannelStreamState,
    Reading, Sending,
};
use wrtc::error::Error;

type Entry = Option<Result<Option<u8>, Error>>;

#[test]
fn a_channel_opens_and_closes() {
    let channel = DataChannel::new("test-dc");
    assert_eq!(channel.label(), "test-dc");
    assert!(!channel.is_open());
    assert!(!channel.is_closed());
    assert!(channel.ready().is_err());
    assert!(channel.recv_internal().is_err());
    let status = channel.status();
    assert!(status.on_message().is_err());
    assert!(status.opening().is_err());

    assert!(status.on_open().is_waiting());
    assert!(channel.is_open());
    assert!(matches!(channel.ready(), Ok(Ok(true))));
    assert!(matches!(channel.recv_internal(), Ok(Reading::Receive)));
    assert!(matches!(status.on_message(), Ok(true)));
    assert!(matches!(status.opening(), Ok(Ok(()))));

    let told: Entry = status.on_close();
    assert!(matches!(told, Some(Ok(None))));
    assert!(channel.is_closed());
    assert!(matches!(channel.ready(), Ok(Ok(false))));
    assert!(matches!(channel.recv_internal(), Ok(Reading::End)));
    assert!(matches!(status.on_message(), Ok(false)));
    assert!(matches!(status.opening(), Ok(Ok(()))));
    let told: Entry = status.on_close();
    assert!(told.is_none());

    status.on_open();
    assert!(!channel.is_open());
}

#[test]
fn a_channel_fails() {
    let channel = DataChannel::new("a");
    let status = channel.status();
    let told: Entry = status.on_error(Error::ConnectionClosed);
    assert!(told.is_none());
    assert!(matches!(channel.ready(), Ok(Err(Error::ConnectionClosed))));
    assert!(matches!(status.opening(), Ok(Err(Error::ConnectionClosed))));
    assert!(matches!(
        channel.recv_internal(),
        Ok(Reading::Fail(Error::ConnectionClosed))
    ));

    let channel = DataChannel::new("b");
    let status = channel.status();
    status.on_open();
    let told: Entry = status.on_error(Error::ConnectionClosed);
    assert!(matches!(told, Some(Err(Error::ConnectionClosed))));
    assert!(status.request_close().is_closed());
    assert!(matches!(channel.ready(), Ok(Err(Error::ConnectionClosed))));
    assert!(matches!(status.on_message(), Ok(false)));
}

#[test]
fn a_failure_outlasts_closing() {
    let failed = |channel: &DataChannel| {
        matches!(channel.ready(), Ok(Err(Error::ConnectionClosed)))
            && matches!(
                channel.recv_internal(),
                Ok(Reading::Fail(Error::ConnectionClosed))
            )
    };
    for opened in [false, true] {
        let channel = DataChannel::new("dc");
        let status = channel.status();
        if opened {
            status.on_open();
        }
        let told: Entry = status.on_error(Error::ConnectionClosed);
        assert_eq!(told.is_some(), opened);
        let told: Entry = status.on_close();
        assert!(told.is_none());
        assert!(failed(&channel));
        status.on_open();
        status.request_close();
        assert!(failed(&channel));

        let channel = DataChannel::new("dc");
        let status = channel.status();
        if opened {
            status.on_open();
        }
        let told: Entry = status.on_close();
        assert_eq!(told.is_some(), opened);
        assert!(matches!(channel.ready(), Ok(Ok(false))));
        let told: Entry = status.on_error(Error::ConnectionClosed);
        assert!(told.is_none());
        assert!(failed(&channel));
    }
}

#[test]
fn leaving_the_waiting_status_wakes_those_who_wait() {
    let runtime = tokio::runtime::Builder::new_current_thread().build().unwrap();
    for way in 0..4 {
        let channel = DataChannel::new("dc");
        let state = channel.ready().unwrap_err();
        let notified = state.waiters().unwrap().notified();
        let status = channel.status();
        let told: Entry = match way {
            0 => {
                status.on_open();
                None
            }
            1 => {
                status.request_close();
                None
            }
            2 => status.on_close(),
            _ => status.on_error(Error::ConnectionClosed),
        };
        assert!(told.is_none());
        runtime.block_on(notified);
        assert!(status.get().waiters().is_none());
    }
}

#[test]
fn changes_of_status() {
    let open = DataChannelStreamState::open();
    let waiting = DataChannelStreamState::waiting();
    let failed = DataChannelStreamState::failed(Error::ConnectionClosed);
    assert!(DataChannelStreamState::next(&waiting, ChannelChange::Open).is_open());
    assert!(DataChannelStreamState::next(&open, ChannelChange::Open).is_open());
    assert!(DataChannelStreamState::next(&waiting, ChannelChange::Close).is_closed());
    assert!(DataChannelStreamState::next(&open, ChannelChange::Close).is_closed());
    for change in [ChannelChange::Open, ChannelChange::Close] {
        assert!(matches!(
            &*DataChannelStreamState::next(&failed, change),
            DataChannelStreamState::Closed { reason: Some(Error::ConnectionClosed) }
        ));
    }
}

#[test]
fn reading_from_the_queue() {
    let read = receive(Some(Ok(Some(5u8))));
    assert!(matches!(read.item, Some(Ok(5))));
    assert!(!read.close);
    let read = receive::<u8>(Some(Ok(None)));
    assert!(read.item.is_none());
    assert!(read.close);
    let read = receive::<u8>(Some(Err(Error::ConnectionClosed)));
    assert!(matches!(read.item, Some(Err(Error::ConnectionClosed))));
    assert!(!read.close);
    let read = receive::<u8>(None);
    assert!(read.item.is_none());
    assert!(!read.close);
}

#[test]
fn one_message_at_a_time() {
    let mut channel = DataChannel::new("dc");
    let step = channel.poll_ready();
    assert!(matches!(step, Sending::Poll));
    assert!(channel.polled(step, None).is_none());
    channel.status().on_open();
    let step = channel.poll_ready();
    assert!(matches!(step, Sending::Answer(Ok(()))));
    assert!(matches!(channel.polled(step, None), Some(Ok(()))));

    channel.start_send();
    let step = channel.poll_flush();
    assert!(matches!(step, Sending::PollSend));
    assert!(channel.polled(step, None).is_none());
    let step = channel.poll_ready();
    assert!(matches!(step, Sending::PollSend));
    let answer = channel.polled(step, Some(Err(Error::ConnectionClosed)));
    assert!(matches!(answer, Some(Err(Error::ConnectionClosed))));
    assert!(matches!(channel.poll_ready(), Sending::Answer(Ok(()))));
    assert!(matches!(channel.poll_flush(), Sending::Answer(Ok(()))));
}

#[test]
fn a_closed_channel_refuses() {
    let mut channel = DataChannel::new("dc");
    channel.start_send();
    channel.status().request_close();
    assert!(matches!(
        channel.poll_ready(),
        Sending::Answer(Err(Error::DataChannelNotOpen))
    ));
    let step = channel.poll_flush();
    assert!(matches!(step, Sending::PollSend));
    assert!(matches!(channel.polled(step, Some(Ok(()))), Some(Ok(()))));
    assert!(matches!(
        channel.poll_flush(),
        Sending::Answer(Err(Error::DataChannelNotOpen))
    ));
    let open = DataChannelStreamState::open();
    assert!(matches!(
        DataChannelSinkState::Idle.after_send(&open),
        Sending::Answer(Ok(()))
    ));
}

#[test]
fn closing_in_order() {
    let mut channel = DataChannel::new("dc");
    channel.status().on_open();
    let step = channel.close_internal();
    assert!(channel.is_closed());
    assert!(matches!(step, Closing::CloseChannel));
    let step = step.next(Ok(()));
    assert!(matches!(step, Closing::AwaitReaders));
    assert!(matches!(step.next(Ok(())), Closing::Finished(Ok(()))));

    channel.start_send();
    let step = channel.close_internal();
    assert!(matches!(step, Closing::AwaitSend));
    assert!(matches!(step.next(Ok(())), Closing::CloseChannel));
    let step = channel.close_internal().next(Err(Error::ConnectionClosed));
    assert!(matches!(step, Closing::Finished(Err(Error::ConnectionClosed))));
    let step = Closing::CloseChannel.next(Err(Error::ConnectionClosed));
    assert!(matches!(
        step.next(Ok(())),
        Closing::Finished(Err(Error::ConnectionClosed))
    ));
}
