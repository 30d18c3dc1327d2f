//! Desktop notifications, handed over a channel to whoever shows them.
use vstd::prelude::*;
use vstd::string::StringExecFns;
use std::sync::mpsc::Sender;
use crate::text::{decimal, push_decimal};

verus! {

/// The sending half of a channel of the standard library; opaque here.
#[verifier::external_type_specification]
#[verifier::external_body]
#[verifier::reject_recursive_types(T)]
pub struct ExSender<T>(Sender<T>);

/// Queues notifications for a worker that owns the receiving half of the channel.
pub struct Notifier {
    sender: Sender<(String, String)>,
}

/// Calls `Sender::send` with the pair of title and body. Says whether the
/// message was taken, which depends on whether the receiving half still
/// exists; nothing is claimed about that.
#[verifier::external_body]
fn send_pair(sender: &Sender<(String, String)>, title: String, body: String) -> (taken: bool) {
    sender.send((title, body)).is_ok()
}

impl Notifier {
    /// The channel that the notifier sends into.
    pub closed spec fn channel(&self) -> Sender<(String, String)> {
        self.sender
    }

    /// A notifier that sends into `sender`.
    pub fn new(sender: Sender<(String, String)>) -> (n: Self)
        ensures
            n.channel() == sender,
    {
        Notifier { sender }
    }

    /// Queues one notification. A message that nobody is left to receive is dropped.
    pub fn notify(&self, title: &str, body: &str) {
        let _taken: bool = send_pair(&self.sender, String::from_str(title), String::from_str(body));
    }
}

/// One desktop notification, as the notification service takes it.
#[derive(Debug, Clone)]
pub struct Notification {
    /// The headline.
    pub summary: String,
    /// The text below the headline.
    pub body: String,
    /// The application that the notification is shown for.
    pub app_name: String,
    /// The name of the icon shown with it.
    pub icon: String,
    /// How long the notification stays up, in milliseconds.
    pub timeout_ms: u32,
}

/// How long a notification of the recorder stays up, in milliseconds.
pub const NOTIFICATION_TIMEOUT_MS: u32 = 5000;

impl Notification {
    /// A notification of the recorder with the given headline and text.
    pub fn new(summary: &str, body: &str) -> (n: Self)
        ensures
            n.summary@ == summary@,
            n.body@ == body@,
            n.app_name@ == "Audio Recorder"@,
            n.icon@ == "audio-input-microphone"@,
            n.timeout_ms == NOTIFICATION_TIMEOUT_MS,
    {
        Notification {
            summary: String::from_str(summary),
            body: String::from_str(body),
            app_name: String::from_str("Audio Recorder"),
            icon: String::from_str("audio-input-microphone"),
            timeout_ms: NOTIFICATION_TIMEOUT_MS,
        }
    }

    /// The arguments with which `notify-send` shows this notification: the
    /// application behind `-a`, the icon behind `-i`, the timeout behind
    /// `-t`, then the headline and the text.
    pub fn command_arguments(&self) -> (args: Vec<String>)
        ensures
            args@.len() == 8,
            args@[0]@ == "-a"@,
            args@[1]@ == self.app_name@,
            args@[2]@ == "-i"@,
            args@[3]@ == self.icon@,
            args@[4]@ == "-t"@,
            args@[5]@ == decimal(self.timeout_ms as nat),
            args@[6]@ == self.summary@,
            args@[7]@ == self.body@,
    {
        let mut timeout: String = String::new();
        push_decimal(&mut timeout, self.timeout_ms as u64);
        assert(timeout@ =~= decimal(self.timeout_ms as nat));
        let mut args: Vec<String> = Vec::new();
        args.push(String::from_str("-a"));
        args.push(self.app_name.clone());
        args.push(String::from_str("-i"));
        args.push(self.icon.clone());
        args.push(String::from_str("-t"));
        args.push(timeout);
        args.push(self.summary.clone());
        args.push(self.body.clone());
        args
    }
}

} // verus!
