use crate::domain::data_stores::EmailClient;
use crate::domain::data_stores::SentEmail;
use crate::domain::email::Email;
use vstd::prelude::*;

verus! {

/// An e-mail client that delivers nothing and accepts every message.
pub struct MockEmailClient {
    handed_over: Ghost<Seq<SentEmail>>,
}

impl MockEmailClient {
    pub fn new() -> (r: MockEmailClient)
        ensures
            r.sent() == Seq::<SentEmail>::empty(),
    {
        MockEmailClient { handed_over: Ghost(Seq::empty()) }
    }
}

impl Default for MockEmailClient {
    fn default() -> (r: MockEmailClient)
        ensures
            r.sent() == Seq::<SentEmail>::empty(),
    {
        MockEmailClient::new()
    }
}

impl EmailClient for MockEmailClient {
    closed spec fn sent(&self) -> Seq<SentEmail> {
        self.handed_over@
    }

    open spec fn reliable(&self) -> bool {
        true
    }

    fn send_email(&mut self, recipient: &Email, subject: &str, content: &str) -> (r: Result<
        (),
        String,
    >)
    {
        self.handed_over = Ghost(
            self.handed_over@.push(
                SentEmail { recipient: recipient@, subject: subject@, content: content@ },
            ),
        );
        Ok(())
    }
}

} // verus!
