//! The message payload: destination, optional sender identity, and optional
//! content, built by a validating two-phase builder.

use vstd::prelude::*;

verus! {

/// Mathematical model of a [`Message`]: every string by its sequence of
/// characters, the content variables as a sequence of key/value pairs.
pub struct MessageView {
    pub body: Option<Seq<char>>,
    pub content_sid: Option<Seq<char>>,
    pub content_variables: Option<Seq<(Seq<char>, Seq<char>)>>,
    pub from: Option<Seq<char>>,
    pub media_urls: Option<Seq<Seq<char>>>,
    pub messaging_service_sid: Option<Seq<char>>,
    pub to: Seq<char>,
}

/// An immutable, validated message payload. Only [`MessageBuilder::build`]
/// produces one.
#[derive(Debug, PartialEq)]
pub struct Message {
    body: Option<String>,
    content_sid: Option<String>,
    content_variables: Option<Vec<(String, String)>>,
    from: Option<String>,
    media_urls: Option<Vec<String>>,
    messaging_service_sid: Option<String>,
    to: String,
}

impl View for Message {
    type V = MessageView;

    closed spec fn view(&self) -> MessageView {
        MessageView {
            body: self.body.deep_view(),
            content_sid: self.content_sid.deep_view(),
            content_variables: self.content_variables.deep_view(),
            from: self.from.deep_view(),
            media_urls: self.media_urls.deep_view(),
            messaging_service_sid: self.messaging_service_sid.deep_view(),
            to: self.to@,
        }
    }
}

/// The validation errors that [`MessageBuilder::build`] can report.
#[derive(Clone, Copy, Debug, PartialEq, Eq)]
pub enum MessageBuilderError {
    /// Neither a body, nor a content SID, nor a non-empty media list was set.
    NoMessageSet,
    /// Neither a sending number nor a messaging service SID was set.
    NoSenderSet,
    /// No destination was set.
    NoToSet,
}

/// Mathematical model of a [`MessageBuilder`]: each field that has been set so
/// far, or `None` where none was.
pub struct MessageBuilderView {
    pub body: Option<Seq<char>>,
    pub content_sid: Option<Seq<char>>,
    pub content_variables: Option<Seq<(Seq<char>, Seq<char>)>>,
    pub from: Option<Seq<char>>,
    pub media_urls: Option<Seq<Seq<char>>>,
    pub messaging_service_sid: Option<Seq<char>>,
    pub to: Option<Seq<char>>,
}

/// The mutable accumulator from which a [`Message`] is built. Setters
/// overwrite their field; validation happens only in
/// [`MessageBuilder::build`].
pub struct MessageBuilder {
    body: Option<String>,
    content_sid: Option<String>,
    content_variables: Option<Vec<(String, String)>>,
    from: Option<String>,
    media_urls: Option<Vec<String>>,
    messaging_service_sid: Option<String>,
    to: Option<String>,
}

impl View for MessageBuilder {
    type V = MessageBuilderView;

    closed spec fn view(&self) -> MessageBuilderView {
        MessageBuilderView {
            body: self.body.deep_view(),
            content_sid: self.content_sid.deep_view(),
            content_variables: self.content_variables.deep_view(),
            from: self.from.deep_view(),
            media_urls: self.media_urls.deep_view(),
            messaging_service_sid: self.messaging_service_sid.deep_view(),
            to: self.to.deep_view(),
        }
    }
}

/// The accumulator with nothing set, as `MessageBuilder::new` returns it.
pub open spec fn empty_message_builder() -> MessageBuilderView {
    MessageBuilderView {
        body: None,
        content_sid: None,
        content_variables: None,
        from: None,
        media_urls: None,
        messaging_service_sid: None,
        to: None,
    }
}

/// The accumulator after `body` stores message text.
pub open spec fn with_body(b: MessageBuilderView, body: Seq<char>) -> MessageBuilderView {
    MessageBuilderView { body: Some(body), ..b }
}

/// The accumulator after `content_sid` stores a template reference.
pub open spec fn with_content_sid(b: MessageBuilderView, content_sid: Seq<char>) -> MessageBuilderView {
    MessageBuilderView { content_sid: Some(content_sid), ..b }
}

/// The accumulator after `content_variables` stores template substitutions.
pub open spec fn with_content_variables(
    b: MessageBuilderView,
    content_variables: Seq<(Seq<char>, Seq<char>)>,
) -> MessageBuilderView {
    MessageBuilderView { content_variables: Some(content_variables), ..b }
}

/// The accumulator after `from` stores a sending number.
pub open spec fn with_from(b: MessageBuilderView, from: Seq<char>) -> MessageBuilderView {
    MessageBuilderView { from: Some(from), ..b }
}

/// The accumulator after `media_url` replaces the media list with a single
/// entry.
pub open spec fn with_media_url(b: MessageBuilderView, media_url: Seq<char>) -> MessageBuilderView {
    MessageBuilderView { media_urls: Some(seq![media_url]), ..b }
}

/// The accumulator after `media_urls` replaces the media list verbatim.
pub open spec fn with_media_urls(
    b: MessageBuilderView,
    media_urls: Seq<Seq<char>>,
) -> MessageBuilderView {
    MessageBuilderView { media_urls: Some(media_urls), ..b }
}

/// The accumulator after `messaging_service_sid` stores a sender pool SID.
pub open spec fn with_messaging_service_sid(
    b: MessageBuilderView,
    messaging_service_sid: Seq<char>,
) -> MessageBuilderView {
    MessageBuilderView { messaging_service_sid: Some(messaging_service_sid), ..b }
}

/// The accumulator after `to` stores the destination.
pub open spec fn with_to(b: MessageBuilderView, to: Seq<char>) -> MessageBuilderView {
    MessageBuilderView { to: Some(to), ..b }
}

/// Whether the accumulated media list counts as message content: it must be
/// present and non-empty.
pub open spec fn has_media(media_urls: Option<Seq<Seq<char>>>) -> bool {
    media_urls is Some && media_urls.unwrap().len() > 0
}

/// What building from a given accumulator returns. The checks run in a fixed
/// order — destination, sender, content — and the first failing check names
/// the error; with all three satisfied the payload carries the accumulated
/// fields unchanged.
pub open spec fn message_build_spec(b: MessageBuilderView) -> Result<
    MessageView,
    MessageBuilderError,
> {
    if b.to is None {
        Err(MessageBuilderError::NoToSet)
    } else if b.from is None && b.messaging_service_sid is None {
        Err(MessageBuilderError::NoSenderSet)
    } else if b.body is None && b.content_sid is None && !has_media(b.media_urls) {
        Err(MessageBuilderError::NoMessageSet)
    } else {
        Ok(
            MessageView {
                body: b.body,
                content_sid: b.content_sid,
                content_variables: b.content_variables,
                from: b.from,
                media_urls: b.media_urls,
                messaging_service_sid: b.messaging_service_sid,
                to: b.to.unwrap(),
            },
        )
    }
}

/// A build result reduced to models, so contracts can compare it to
/// [`message_build_spec`].
pub open spec fn message_result_view(r: Result<Message, MessageBuilderError>) -> Result<
    MessageView,
    MessageBuilderError,
> {
    match r {
        Ok(message) => Ok(message@),
        Err(e) => Err(e),
    }
}

/// An owned copy of an optional string, equal to the original.
fn clone_opt_string(o: &Option<String>) -> (r: Option<String>)
    ensures
        r == *o,
{
    match o {
        Some(s) => Some(s.clone()),
        None => None,
    }
}

/// An owned copy of a string list whose elements equal the original's.
fn clone_strings(v: &Vec<String>) -> (r: Vec<String>)
    ensures
        r@ == v@,
{
    let mut r: Vec<String> = Vec::new();
    let mut i: usize = 0;
    while i < v.len()
        invariant
            i <= v@.len(),
            r@ == v@.take(i as int),
        decreases v@.len() - i,
    {
        r.push(v[i].clone());
        i = i + 1;
        proof {
            assert(r@ =~= v@.take(i as int));
        }
    }
    proof {
        assert(v@.take(v@.len() as int) =~= v@);
    }
    r
}

/// An owned copy of an optional media list with an equal model.
fn clone_opt_strings(o: &Option<Vec<String>>) -> (r: Option<Vec<String>>)
    ensures
        r.deep_view() == o.deep_view(),
{
    match o {
        Some(v) => {
            let c = clone_strings(v);
            proof {
                assert(c.deep_view() =~= v.deep_view());
            }
            Some(c)
        },
        None => None,
    }
}

/// An owned copy of a key/value pair list whose elements equal the original's.
fn clone_pairs(v: &Vec<(String, String)>) -> (r: Vec<(String, String)>)
    ensures
        r@ == v@,
{
    let mut r: Vec<(String, String)> = Vec::new();
    let mut i: usize = 0;
    while i < v.len()
        invariant
            i <= v@.len(),
            r@ == v@.take(i as int),
        decreases v@.len() - i,
    {
        r.push((v[i].0.clone(), v[i].1.clone()));
        i = i + 1;
        proof {
            assert(r@ =~= v@.take(i as int));
        }
    }
    proof {
        assert(v@.take(v@.len() as int) =~= v@);
    }
    r
}

/// An owned copy of the optional content variables with an equal model.
fn clone_opt_pairs(o: &Option<Vec<(String, String)>>) -> (r: Option<Vec<(String, String)>>)
    ensures
        r.deep_view() == o.deep_view(),
{
    match o {
        Some(v) => {
            let c = clone_pairs(v);
            proof {
                assert(c.deep_view() =~= v.deep_view());
            }
            Some(c)
        },
        None => None,
    }
}

/// The form parameters an optional field contributes: one keyed entry when the
/// field is set, none otherwise.
pub open spec fn opt_param(key: Seq<char>, field: Option<Seq<char>>) -> Seq<(Seq<char>, Seq<char>)> {
    match field {
        Some(value) => seq![(key, value)],
        None => Seq::empty(),
    }
}

/// The form parameters the media list contributes: one `MediaUrl` entry per
/// URL, in the list's order.
pub open spec fn media_params(media_urls: Option<Seq<Seq<char>>>) -> Seq<(Seq<char>, Seq<char>)> {
    match media_urls {
        Some(urls) => urls.map_values(|url: Seq<char>| ("MediaUrl"@, url)),
        None => Seq::empty(),
    }
}

/// The scalar form parameters of a payload, in the fixed field order the
/// provider request uses: `To` always, then `From`, `MessagingServiceSid`,
/// `Body` and `ContentSid` where set. Content variables are never emitted.
pub open spec fn scalar_params_spec(m: MessageView) -> Seq<(Seq<char>, Seq<char>)> {
    seq![("To"@, m.to)] + opt_param("From"@, m.from) + opt_param(
        "MessagingServiceSid"@,
        m.messaging_service_sid,
    ) + opt_param("Body"@, m.body) + opt_param("ContentSid"@, m.content_sid)
}

/// The complete ordered form-parameter list of a payload: the scalar
/// parameters followed by one `MediaUrl` entry per media URL, in order.
pub open spec fn form_params_spec(m: MessageView) -> Seq<(Seq<char>, Seq<char>)> {
    scalar_params_spec(m) + media_params(m.media_urls)
}

impl Message {
    /// The ordered form-parameter list that one send posts for this payload,
    /// exactly as [`form_params_spec`] states it.
    pub fn form_params(&self) -> (r: Vec<(String, String)>)
        ensures
            r.deep_view() == form_params_spec(self@),
    {
        let mut params: Vec<(String, String)> = Vec::new();
        params.push(("To".to_owned(), self.to.clone()));
        proof {
            assert(params.deep_view() =~= seq![("To"@, self@.to)]);
        }
        if let Some(from) = &self.from {
            params.push(("From".to_owned(), from.clone()));
        }
        proof {
            assert(params.deep_view() =~= seq![("To"@, self@.to)] + opt_param(
                "From"@,
                self@.from,
            ));
        }
        if let Some(messaging_service_sid) = &self.messaging_service_sid {
            params.push(("MessagingServiceSid".to_owned(), messaging_service_sid.clone()));
        }
        proof {
            assert(params.deep_view() =~= seq![("To"@, self@.to)] + opt_param("From"@, self@.from)
                + opt_param("MessagingServiceSid"@, self@.messaging_service_sid));
        }
        if let Some(body) = &self.body {
            params.push(("Body".to_owned(), body.clone()));
        }
        proof {
            assert(params.deep_view() =~= seq![("To"@, self@.to)] + opt_param("From"@, self@.from)
                + opt_param("MessagingServiceSid"@, self@.messaging_service_sid) + opt_param(
                "Body"@,
                self@.body,
            ));
        }
        if let Some(content_sid) = &self.content_sid {
            params.push(("ContentSid".to_owned(), content_sid.clone()));
        }
        proof {
            assert(params.deep_view() =~= scalar_params_spec(self@));
        }
        if let Some(media_urls) = &self.media_urls {
            let mut i: usize = 0;
            while i < media_urls.len()
                invariant
                    i <= media_urls@.len(),
                    self@.media_urls == Some(media_urls.deep_view()),
                    params.deep_view() == scalar_params_spec(self@) + media_params(
                        self@.media_urls,
                    ).take(i as int),
                decreases media_urls@.len() - i,
            {
                let key = "MediaUrl".to_owned();
                let url = media_urls[i].clone();
                params.push((key, url));
                i = i + 1;
                proof {
                    let mp = media_params(self@.media_urls);
                    let j = i - 1;
                    assert(mp[j] == ("MediaUrl"@, media_urls.deep_view()[j]));
                    assert(mp[j] == (key@, url@));
                    assert(params.deep_view() =~= (scalar_params_spec(self@) + mp.take(j)).push(
                        (key@, url@),
                    ));
                    assert(scalar_params_spec(self@) + mp.take(i as int) =~= (scalar_params_spec(
                        self@,
                    ) + mp.take(j)).push(mp[j]));
                }
            }
            proof {
                assert(media_params(self@.media_urls).take(media_urls@.len() as int)
                    =~= media_params(self@.media_urls));
            }
        }
        proof {
            assert(params.deep_view() =~= form_params_spec(self@));
        }
        params
    }

    /// A fresh payload accumulator with no field set.
    pub fn builder() -> (r: MessageBuilder)
        ensures
            r@ == empty_message_builder(),
    {
        MessageBuilder::new()
    }
}

impl MessageBuilder {
    /// A fresh accumulator with no field set.
    pub fn new() -> (r: Self)
        ensures
            r@ == empty_message_builder(),
    {
        MessageBuilder {
            body: None,
            content_sid: None,
            content_variables: None,
            from: None,
            media_urls: None,
            messaging_service_sid: None,
            to: None,
        }
    }

    /// Validates the accumulated fields and returns the payload. The
    /// accumulator is read, not consumed: a failed build can be corrected and
    /// retried, and repeated builds return value-equal results.
    pub fn build(&self) -> (r: Result<Message, MessageBuilderError>)
        ensures
            message_result_view(r) == message_build_spec(self@),
    {
        let to = match &self.to {
            Some(to) => to.clone(),
            None => {
                return Err(MessageBuilderError::NoToSet);
            },
        };
        if self.from.is_none() && self.messaging_service_sid.is_none() {
            return Err(MessageBuilderError::NoSenderSet);
        }
        let media_set = match &self.media_urls {
            Some(urls) => urls.len() > 0,
            None => false,
        };
        if self.body.is_none() && self.content_sid.is_none() && !media_set {
            return Err(MessageBuilderError::NoMessageSet);
        }
        Ok(
            Message {
                body: clone_opt_string(&self.body),
                content_sid: clone_opt_string(&self.content_sid),
                content_variables: clone_opt_pairs(&self.content_variables),
                from: clone_opt_string(&self.from),
                media_urls: clone_opt_strings(&self.media_urls),
                messaging_service_sid: clone_opt_string(&self.messaging_service_sid),
                to,
            },
        )
    }

    /// Stores the message text, overwriting any earlier value.
    pub fn body(self, body: String) -> (r: Self)
        ensures
            r@ == with_body(self@, body@),
    {
        MessageBuilder { body: Some(body), ..self }
    }

    /// Stores a content template reference, overwriting any earlier value.
    pub fn content_sid(self, content_sid: String) -> (r: Self)
        ensures
            r@ == with_content_sid(self@, content_sid@),
    {
        MessageBuilder { content_sid: Some(content_sid), ..self }
    }

    /// Stores the template substitution pairs, overwriting any earlier value.
    pub fn content_variables(self, content_variables: Vec<(String, String)>) -> (r: Self)
        ensures
            r@ == with_content_variables(self@, content_variables.deep_view()),
    {
        MessageBuilder { content_variables: Some(content_variables), ..self }
    }

    /// Stores the sending number, overwriting any earlier value.
    pub fn from(self, from: String) -> (r: Self)
        ensures
            r@ == with_from(self@, from@),
    {
        MessageBuilder { from: Some(from), ..self }
    }

    /// Replaces the media list with the single given URL. This is a full
    /// replacement, not an append.
    pub fn media_url(self, media_url: String) -> (r: Self)
        ensures
            r@ == with_media_url(self@, media_url@),
    {
        let mut urls: Vec<String> = Vec::new();
        urls.push(media_url);
        proof {
            assert(urls.deep_view() =~= seq![media_url@]);
        }
        MessageBuilder { media_urls: Some(urls), ..self }
    }

    /// Replaces the media list with the given URLs verbatim: order is kept and
    /// duplicates are allowed.
    pub fn media_urls(self, media_urls: Vec<String>) -> (r: Self)
        ensures
            r@ == with_media_urls(self@, media_urls.deep_view()),
    {
        MessageBuilder { media_urls: Some(media_urls), ..self }
    }

    /// Stores a messaging service SID as the sender, overwriting any earlier
    /// value.
    pub fn messaging_service_sid(self, messaging_service_sid: String) -> (r: Self)
        ensures
            r@ == with_messaging_service_sid(self@, messaging_service_sid@),
    {
        MessageBuilder { messaging_service_sid: Some(messaging_service_sid), ..self }
    }

    /// Stores the destination, overwriting any earlier value.
    pub fn to(self, to: String) -> (r: Self)
        ensures
            r@ == with_to(self@, to@),
    {
        MessageBuilder { to: Some(to), ..self }
    }
}

/// Law: message building succeeds exactly when a destination, a sender
/// identity, and some content are all present; the checks run in the order
/// destination, sender, content, and the first failing check names the error.
pub proof fn lemma_message_build_complete(b: MessageBuilderView)
    ensures
        message_build_spec(b) is Ok <==> (b.to is Some && (b.from is Some
            || b.messaging_service_sid is Some) && (b.body is Some || b.content_sid is Some
            || has_media(b.media_urls))),
        message_build_spec(b) == Err::<MessageView, MessageBuilderError>(
            MessageBuilderError::NoToSet,
        ) <==> b.to is None,
        message_build_spec(b) == Err::<MessageView, MessageBuilderError>(
            MessageBuilderError::NoSenderSet,
        ) <==> (b.to is Some && b.from is None && b.messaging_service_sid is None),
        message_build_spec(b) == Err::<MessageView, MessageBuilderError>(
            MessageBuilderError::NoMessageSet,
        ) <==> (b.to is Some && (b.from is Some || b.messaging_service_sid is Some)
            && b.body is None && b.content_sid is None && !has_media(b.media_urls)),
{
}

/// Law: each media setter fully replaces the media list. Replacing a single
/// URL with a pair leaves exactly the pair, and setting a single URL twice
/// leaves only the later one.
pub proof fn lemma_media_replace(b: MessageBuilderView, x: Seq<char>, y: Seq<char>, z: Seq<char>)
    ensures
        with_media_urls(with_media_url(b, x), seq![y, z]).media_urls == Some(seq![y, z]),
        with_media_url(with_media_url(b, x), y).media_urls == Some(seq![y]),
{
}

/// Law: a payload's parameter list ends with one `MediaUrl` entry per media
/// URL, after the scalar parameters, in the media list's original order —
/// duplicates included.
pub proof fn lemma_media_params_in_order(m: MessageView)
    requires
        m.media_urls is Some,
    ensures
        form_params_spec(m).len() == scalar_params_spec(m).len() + m.media_urls.unwrap().len(),
        forall|i: int|
            0 <= i < m.media_urls.unwrap().len() ==> form_params_spec(m)[scalar_params_spec(
                m,
            ).len() + i] == ("MediaUrl"@, m.media_urls.unwrap()[i]),
{
}

/// Law: a message build is repeatable — the result is a function of the
/// accumulator's value alone, so building twice without intervening mutation
/// yields value-equal results.
pub proof fn lemma_message_build_repeatable(b1: MessageBuilderView, b2: MessageBuilderView)
    requires
        b1 == b2,
    ensures
        message_build_spec(b1) == message_build_spec(b2),
{
}

} // verus!
