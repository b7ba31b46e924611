//! The Discord webhook: its addresses and the steps of a delivery.

use vstd::prelude::*;

use crate::discord::NotificationResult;

verus! {

/// The part of an address before its query.
pub open spec fn before_query(address: Seq<char>) -> Seq<char>
    decreases address.len(),
{
    if address.len() == 0 || address[0] == '?' {
        Seq::empty()
    } else {
        seq![address[0]] + before_query(address.skip(1))
    }
}

/// An address without the slashes at its end.
pub open spec fn without_end_slashes(address: Seq<char>) -> Seq<char>
    decreases address.len(),
{
    if address.len() > 0 && address.last() == '/' {
        without_end_slashes(address.drop_last())
    } else {
        address
    }
}

/// The address of a message that the webhook posted.
pub open spec fn message_address(webhook: Seq<char>, message_id: Seq<char>) -> Seq<char> {
    without_end_slashes(before_query(webhook)) + "/messages/"@ + message_id
}

/// The address that posts a message and answers with its id.
pub open spec fn wait_address(webhook: Seq<char>) -> Seq<char> {
    if webhook.contains('?') {
        webhook + "&wait=true"@
    } else {
        webhook + "?wait=true"@
    }
}

/// One step of a delivery.
#[derive(Debug)]
pub enum Delivery {
    /// Edit the message at this address.
    Edit { url: String },
    /// Post a message to this address.
    Create { url: String },
    /// Nothing is left to do.
    Done(NotificationResult),
}

/// The way to the Discord channel, if one is set up.
#[derive(Debug)]
pub struct DiscordNotifier {
    pub webhook_url: Option<String>,
}

/// Where the query of an address starts; its end if it has none.
fn query_start(address: &str) -> (start: usize)
    ensures
        start <= address@.len(),
        before_query(address@) == address@.take(start as int),
        start < address@.len() <==> address@.contains('?'),
{
    let len: usize = address.unicode_len();
    let mut i: usize = 0;
    assert(address@.skip(0) =~= address@);
    while i < len && address.get_char(i) != '?'
        invariant
            i <= len == address@.len(),
            before_query(address@) =~= address@.take(i as int) + before_query(
                address@.skip(i as int),
            ),
            !address@.take(i as int).contains('?'),
        decreases len - i,
    {
        assert(address@.skip(i as int).skip(1) =~= address@.skip(i + 1));
        assert(address@.take(i + 1) =~= address@.take(i as int).push(address@[i as int]));
        i = i + 1;
    }
    proof {
        if i < len {
            assert(address@[i as int] == '?');
        } else {
            assert(address@.take(i as int) =~= address@);
        }
    }
    i
}

impl DiscordNotifier {
    /// The notifier for a webhook address, if there is one.
    pub fn new(webhook_url: Option<String>) -> (notifier: Self)
        ensures
            notifier.webhook_url == webhook_url,
    {
        DiscordNotifier { webhook_url }
    }

    /// The part of a webhook address before its query.
    pub fn base_url(webhook: &str) -> (base: &str)
        ensures
            base@ == before_query(webhook@),
    {
        let start: usize = query_start(webhook);
        webhook.substring_char(0, start)
    }

    /// The address that posts a message and answers with its id.
    pub fn wait_url(webhook: &str) -> (url: String)
        ensures
            url@ == wait_address(webhook@),
            webhook@.contains('?') ==> url@ == webhook@ + "&wait=true"@,
            !webhook@.contains('?') ==> url@ == webhook@ + "?wait=true"@,
    {
        let mut url = webhook.to_owned();
        if query_start(webhook) < webhook.unicode_len() {
            url.append("&wait=true");
        } else {
            url.append("?wait=true");
        }
        url
    }

    /// The address of a message that the webhook posted.
    pub fn message_url(webhook: &str, message_id: &str) -> (url: String)
        ensures
            url@ == message_address(webhook@, message_id@),
    {
        let base = Self::base_url(webhook);
        let mut end: usize = base.unicode_len();
        assert(base@.take(end as int) =~= base@);
        while end > 0 && base.get_char(end - 1) == '/'
            invariant
                end <= base@.len(),
                without_end_slashes(base@) == without_end_slashes(base@.take(end as int)),
            decreases end,
        {
            assert(base@.take(end as int).drop_last() =~= base@.take(end - 1));
            end = end - 1;
        }
        let mut url = base.substring_char(0, end).to_owned();
        assert(url@ =~= base@.take(end as int));
        url.append("/messages/");
        url.append(message_id);
        url
    }

    /// Where a message is posted whose id is not asked for.
    pub fn post_url(&self) -> (url: Option<&str>)
        ensures
            match url {
                Some(url) => self.webhook_url matches Some(webhook) && url@ == webhook@,
                None => self.webhook_url is None,
            },
    {
        match &self.webhook_url {
            Some(webhook) => Some(webhook.as_str()),
            None => None,
        }
    }

    /// Whether there is a webhook to deliver to.
    pub fn is_configured(&self) -> (configured: bool)
        ensures
            configured == (self.webhook_url is Some),
    {
        self.webhook_url.is_some()
    }

    /// The first step of announcing a change of health: editing the message
    /// that is known, or posting a new one.
    pub fn start_delivery(&self, message_id: Option<&str>) -> (step: Delivery)
        ensures
            match self.webhook_url {
                None => step == Delivery::Done(NotificationResult::Failed),
                Some(webhook) => match message_id {
                    Some(id) => step matches Delivery::Edit { url } && url@ == message_address(
                        webhook@,
                        id@,
                    ),
                    None => step matches Delivery::Create { url } && url@ == wait_address(webhook@),
                },
            },
    {
        match &self.webhook_url {
            None => Delivery::Done(NotificationResult::Failed),
            Some(webhook) => match message_id {
                Some(id) => Delivery::Edit { url: Self::message_url(webhook.as_str(), id) },
                None => Delivery::Create { url: Self::wait_url(webhook.as_str()) },
            },
        }
    }

    /// The step after an attempt to edit: a message that could not be edited is
    /// replaced by a new one.
    pub fn after_edit(&self, edited: bool) -> (step: Delivery)
        ensures
            edited ==> step == Delivery::Done(NotificationResult::Updated),
            !edited ==> match self.webhook_url {
                None => step == Delivery::Done(NotificationResult::Failed),
                Some(webhook) => step matches Delivery::Create { url } && url@ == wait_address(
                    webhook@,
                ),
            },
    {
        if edited {
            Delivery::Done(NotificationResult::Updated)
        } else {
            self.start_delivery(None)
        }
    }

    /// What became of an announcement after an attempt to post it, which gives
    /// the id of the new message if it succeeded.
    pub fn after_create(message_id: Option<String>) -> (result: NotificationResult)
        ensures
            result == (match message_id {
                Some(id) => NotificationResult::Created(id),
                None => NotificationResult::Failed,
            }),
    {
        match message_id {
            Some(id) => NotificationResult::Created(id),
            None => NotificationResult::Failed,
        }
    }
}

/// Whether the answer to a message says that it was taken: any code of success.
pub fn accepted(code: u16) -> (ok: bool)
    ensures
        ok == (200 <= code < 300),
{
    200 <= code && code < 300
}

/// The part before the query is what the address starts with, holds no question
/// mark, and ends where the address does or at its first question mark.
pub proof fn law_base_ends_at_query(address: Seq<char>)
    ensures
        before_query(address).len() <= address.len(),
        before_query(address) == address.take(before_query(address).len() as int),
        !before_query(address).contains('?'),
        before_query(address).len() < address.len() ==> address[before_query(address).len() as int]
            == '?',
    decreases address.len(),
{
    if address.len() > 0 && address[0] != '?' {
        let rest = address.skip(1);
        let base = before_query(address);
        law_base_ends_at_query(rest);
        let inner = before_query(rest);
        assert(base =~= seq![address[0]] + inner);
        assert(base =~= address.take(base.len() as int));
        assert forall|i: int| 0 <= i < base.len() implies base[i] != '?' by {
            if i > 0 {
                assert(base[i] == inner[i - 1]);
                assert(inner.contains(inner[i - 1]));
            }
        }
    }
}

/// Posting asks for an answer: the address is that of the webhook, with one more
/// part of its query or with a query of its own.
pub proof fn law_wait_is_asked_for_in_the_query(webhook: Seq<char>)
    ensures
        (exists|i: int| 0 <= i < webhook.len() && webhook[i] == '?') ==> wait_address(webhook)
            == webhook + "&wait=true"@,
        (forall|i: int| 0 <= i < webhook.len() ==> webhook[i] != '?') ==> wait_address(webhook)
            == webhook + "?wait=true"@,
{
}

proof fn lemma_before_query(base: Seq<char>, query: Seq<char>)
    requires
        forall|i: int| 0 <= i < base.len() ==> base[i] != '?',
        query.len() > 0 ==> query[0] == '?',
    ensures
        before_query(base + query) == base,
    decreases base.len(),
{
    let address = base + query;
    if base.len() == 0 {
        assert(before_query(address) =~= base);
    } else {
        let rest = base.skip(1);
        assert(address.skip(1) =~= rest + query);
        lemma_before_query(rest, query);
        assert(before_query(address) =~= base);
    }
}

proof fn lemma_without_end_slashes(base: Seq<char>, slashes: Seq<char>)
    requires
        base.len() > 0 ==> base[base.len() - 1] != '/',
        forall|i: int| 0 <= i < slashes.len() ==> slashes[i] == '/',
    ensures
        without_end_slashes(base + slashes) == base,
    decreases slashes.len(),
{
    let address = base + slashes;
    if slashes.len() == 0 {
        assert(address =~= base);
    } else {
        assert(address.last() == slashes[slashes.len() - 1]);
        assert(address.drop_last() =~= base + slashes.drop_last());
        lemma_without_end_slashes(base, slashes.drop_last());
    }
}

/// A message is found below the webhook: whatever query the webhook has, and
/// however many slashes stand before that, they give way to the place of the
/// message.
pub proof fn law_message_is_found_below_the_webhook(
    base: Seq<char>,
    slashes: Seq<char>,
    query: Seq<char>,
    message_id: Seq<char>,
)
    requires
        forall|i: int| 0 <= i < base.len() ==> base[i] != '?',
        base.len() > 0 ==> base[base.len() - 1] != '/',
        forall|i: int| 0 <= i < slashes.len() ==> slashes[i] == '/',
        query.len() > 0 ==> query[0] == '?',
    ensures
        before_query(base + slashes + query) == base + slashes,
        message_address(base + slashes + query, message_id) == base + "/messages/"@ + message_id,
{
    lemma_before_query(base + slashes, query);
    lemma_without_end_slashes(base, slashes);
}

} // verus!
