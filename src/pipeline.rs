//! The message pipeline as a state machine.
//!
//! The caller performs each `Action` (a store query, the completion call, a
//! message sent to the channel) and reports what came of it through the
//! matching `on_*` method, which decides the next step. The registry entry a
//! pipeline claims is released on every path that leaves the pipeline.
use vstd::prelude::*;
use crate::model::{
    assistant_role, messages_view, user_role, AppData, ChatCompletionRequest,
    ChatCompletionResponse, ChatDocument, Message,
};
use crate::registry::{begin_succeeds, ProcessingRegistry};
use crate::template::{template_message, template_outcome, MissingSnippet, Templated};
use crate::text::{chars_of, decimal, decimal_exec, matches_at_exec, string_of};

verus! {

/// The message that an incoming message replies to.
#[derive(Debug, Clone, Copy, PartialEq, Eq)]
pub struct ReferencedMessage {
    pub id: u64,
    pub author_id: u64,
}

/// A message posted on the chat platform.
#[derive(Debug, Clone, PartialEq)]
pub struct IncomingMessage {
    pub id: u64,
    pub author_id: u64,
    pub channel_id: u64,
    pub content: String,
    pub mentions: Vec<u64>,
    pub referenced: Option<ReferencedMessage>,
}

/// What an incoming message asks of the bot.
#[derive(Debug, Clone, Copy, PartialEq, Eq)]
pub enum Classification {
    /// A reply to the bot's message `anchor`: continue that conversation.
    Continuation { anchor: u64 },
    /// A message that mentions the bot: start a conversation.
    New,
    /// The ping command.
    Ping,
    /// Anything else.
    Ignore,
}

pub open spec fn ping_command() -> Seq<char> {
    seq!['!', 'p', 'i', 'n', 'g']
}

/// A reply to one of the bot's messages continues a conversation; otherwise a
/// mention of the bot starts one; otherwise the ping command is answered.
pub open spec fn classification_of(msg: IncomingMessage, bot_id: u64) -> Classification {
    if msg.referenced is Some && msg.referenced->0.author_id == bot_id {
        Classification::Continuation { anchor: msg.referenced->0.id }
    } else if msg.mentions@.contains(bot_id) {
        Classification::New
    } else if msg.content@ == ping_command() {
        Classification::Ping
    } else {
        Classification::Ignore
    }
}

/// Classifies an incoming message.
pub fn classify(msg: &IncomingMessage, bot_id: u64) -> (r: Classification)
    ensures
        r == classification_of(*msg, bot_id),
{
    let to_bot = match msg.referenced {
        Some(re) => re.author_id == bot_id,
        None => false,
    };
    if to_bot {
        return Classification::Continuation { anchor: msg.referenced.unwrap().id };
    }
    assert(!(msg.referenced is Some && msg.referenced->0.author_id == bot_id));
    let mut k: usize = 0;
    while k < msg.mentions.len()
        invariant
            k <= msg.mentions@.len(),
            !(msg.referenced is Some && msg.referenced->0.author_id == bot_id),
            forall|j: int| 0 <= j < k ==> msg.mentions@[j] != bot_id,
        decreases msg.mentions.len() - k,
    {
        if msg.mentions[k] == bot_id {
            assert(msg.mentions@[k as int] == bot_id);
            return Classification::New;
        }
        k += 1;
    }
    let text = chars_of(msg.content.as_str());
    let ping: Vec<char> = vec!['!', 'p', 'i', 'n', 'g'];
    assert(text@.subrange(0, text@.len() as int) =~= text@);
    if text.len() == ping.len() && matches_at_exec(&text, &ping, 0) {
        Classification::Ping
    } else {
        Classification::Ignore
    }
}

/// The model that every completion request names.
pub open spec fn model_name() -> Seq<char> {
    seq!['g', 'p', 't', '-', '3', '.', '5', '-', 't', 'u', 'r', 'b', 'o']
}

/// The reply that asks for a quoted name.
pub open spec fn warning_text() -> Seq<char> {
    seq![
        'Y', 'o', 'u', ' ', 'n', 'e', 'e', 'd', ' ', 't', 'o', ' ', 'p', 'r', 'o', 'v', 'i', 'd',
        'e', ' ', 'a', ' ', 'n', 'a', 'm', 'e', '.',
    ]
}

/// How long the warning stays before it is deleted, in seconds.
pub const WARNING_LIFETIME_SECS: u64 = 5;

/// The messages of the stored conversations, one conversation after another.
pub open spec fn history_messages(docs: Seq<ChatDocument>) -> Seq<Message>
    decreases docs.len(),
{
    if docs.len() == 0 {
        Seq::empty()
    } else {
        history_messages(docs.drop_last()) + docs.last().messages@
    }
}

/// Where a pipeline stands.
#[derive(Debug, Clone, Copy, PartialEq, Eq)]
pub enum Stage {
    /// Waiting for the stored conversation to continue.
    Resolving,
    /// Waiting for the completion service.
    AwaitingCompletion,
    /// Waiting for the answer to be posted.
    Replying,
    /// Waiting for the conversation to be stored.
    Persisting,
    /// Waiting for the name warning to be posted.
    Warning,
    Done,
    Aborted,
}

/// Whether the pipeline holds its registry entry at this stage.
pub open spec fn holds_entry(stage: Stage) -> bool {
    stage is Resolving || stage is AwaitingCompletion
}

/// Whether a conversation is started or continued.
#[derive(Debug, Clone, Copy, PartialEq, Eq)]
pub enum Kind {
    New,
    Continuation { anchor: u64 },
}

/// What the caller is to do next.
#[derive(Debug, Clone, PartialEq)]
pub enum Action {
    Nothing,
    /// Answer the ping command on the channel.
    Pong { channel_id: u64 },
    /// Look up the stored conversation anchored at `anchor`.
    FetchHistory { anchor: u64 },
    /// Signal activity on the channel while the request is sent to the completion service.
    CallCompletion { channel_id: u64, request: ChatCompletionRequest },
    /// Post `content` on the channel as a reply to message `reply_to`.
    SendReply { channel_id: u64, reply_to: u64, content: String },
    /// Post the name warning `content` as a reply to message `reply_to`.
    SendWarning { channel_id: u64, reply_to: u64, content: String },
    /// Delete message `message_id` once `seconds` have passed.
    DeleteAfter { channel_id: u64, message_id: u64, seconds: u64 },
    /// Store a new conversation.
    Insert { document: ChatDocument },
    /// Replace the messages of the conversation anchored at `anchor`.
    Update { anchor: String, messages: Vec<Message> },
}

/// One message's pipeline.
#[derive(Debug, Clone, PartialEq)]
pub struct Pipeline {
    pub stage: Stage,
    pub kind: Kind,
    /// The registry entry that the pipeline claimed.
    pub key: u64,
    pub message_id: u64,
    pub channel_id: u64,
    pub content: String,
    /// The conversation so far, as it is sent to the completion service.
    pub outgoing: Vec<Message>,
    /// The completion service's answer, once it came.
    pub reply: String,
}

/// The step after templating, from the pipeline `p` it leaves, the registry
/// before and after it, and the action it asks for; `history` is the prior
/// conversation.
pub open spec fn templated_step(
    p: Pipeline,
    before: Set<u64>,
    after: Set<u64>,
    action: Action,
    history: Seq<Message>,
    app: AppData,
) -> bool {
    match template_outcome(p.content@, app.bot_id, app.all_prompts@) {
        Err(_) => {
            &&& p.stage is Aborted
            &&& after == before.remove(p.key)
            &&& action is Nothing
        },
        Ok(None) => {
            &&& p.stage is Warning
            &&& after == before.remove(p.key)
            &&& action matches Action::SendWarning { channel_id, reply_to, content }
            &&& channel_id == p.channel_id
            &&& reply_to == p.message_id
            &&& content@ == warning_text()
        },
        Ok(Some(t)) => {
            &&& p.stage is AwaitingCompletion
            &&& after == before
            &&& messages_view(p.outgoing@) == messages_view(history).push((user_role(), t))
            &&& action matches Action::CallCompletion { channel_id, request }
            &&& channel_id == p.channel_id
            &&& request.model@ == model_name()
            &&& request.messages@ == p.outgoing@
        },
    }
}

/// The fields that no step after the start changes.
pub open spec fn same_message(a: Pipeline, b: Pipeline) -> bool {
    &&& b.kind == a.kind
    &&& b.key == a.key
    &&& b.message_id == a.message_id
    &&& b.channel_id == a.channel_id
    &&& b.content == a.content
}

/// The step on the completion service's response: the last choice's text is
/// posted as a reply; with no response or no choice the pipeline ends.
pub open spec fn completion_step(
    before: Pipeline,
    after: Pipeline,
    response: Option<ChatCompletionResponse>,
    action: Action,
) -> bool {
    &&& same_message(before, after)
    &&& after.outgoing == before.outgoing
    &&& match response {
        Some(resp) if resp.choices@.len() > 0 => {
            &&& after.stage is Replying
            &&& after.reply@ == resp.choices@.last().message.content@
            &&& action matches Action::SendReply { channel_id, reply_to, content }
            &&& channel_id == before.channel_id
            &&& reply_to == before.message_id
            &&& content@ == resp.choices@.last().message.content@
        },
        _ => after.stage is Aborted && action is Nothing,
    }
}

/// The step on the posted reply: the answer joins the conversation, which is
/// stored as a new one anchored at the reply, or over the messages of the one
/// that was continued; when posting failed the pipeline ends.
pub open spec fn reply_step(before: Pipeline, after: Pipeline, sent: Option<u64>, action: Action) -> bool {
    &&& same_message(before, after)
    &&& match sent {
        None => after.stage is Aborted && action is Nothing,
        Some(bot_message) => {
            &&& after.stage is Persisting
            &&& messages_view(after.outgoing@) == messages_view(before.outgoing@).push(
                (assistant_role(), before.reply@),
            )
            &&& match before.kind {
                Kind::New => {
                    &&& action matches Action::Insert { document }
                    &&& document.id@ == decimal(bot_message as nat)
                    &&& document.messages@ == after.outgoing@
                },
                Kind::Continuation { anchor } => {
                    &&& action matches Action::Update { anchor: a, messages }
                    &&& a@ == decimal(anchor as nat)
                    &&& messages@ == after.outgoing@
                },
            }
        },
    }
}

/// A new conversation whose pipeline succeeds (the message is templated, the
/// service answers with at least one choice, the reply is posted) is stored
/// once, anchored at the posted reply, holding the user's templated text and
/// the last choice's text; the steps before ask for no store write.
pub proof fn lemma_new_conversation_stored(
    started: Pipeline,
    answered: Pipeline,
    replied: Pipeline,
    before: Set<u64>,
    after: Set<u64>,
    app: AppData,
    call: Action,
    reply: Action,
    store: Action,
    text: Seq<char>,
    response: ChatCompletionResponse,
    bot_message: u64,
)
    requires
        started.kind is New,
        template_outcome(started.content@, app.bot_id, app.all_prompts@) == Ok::<
            Option<Seq<char>>,
            MissingSnippet,
        >(Some(text)),
        templated_step(started, before, after, call, Seq::empty(), app),
        response.choices@.len() > 0,
        completion_step(started, answered, Some(response), reply),
        reply_step(answered, replied, Some(bot_message), store),
    ensures
        call is CallCompletion,
        reply is SendReply,
        store matches Action::Insert { document } && document.id@ == decimal(bot_message as nat)
            && messages_view(document.messages@) == seq![
            (user_role(), text),
            (assistant_role(), response.choices@.last().message.content@),
        ],
{
    assert(messages_view(Seq::<Message>::empty()) =~= Seq::empty());
    assert(messages_view(Seq::<Message>::empty()).push((user_role(), text)).push(
        (assistant_role(), response.choices@.last().message.content@),
    ) =~= seq![
        (user_role(), text),
        (assistant_role(), response.choices@.last().message.content@),
    ]);
}

/// A continued conversation whose pipeline succeeds is updated under its own
/// anchor, its messages being the prior history followed by the user's
/// templated text and the last choice's text; the steps before ask for no
/// store write.
pub proof fn lemma_continuation_appends(
    started: Pipeline,
    answered: Pipeline,
    replied: Pipeline,
    before: Set<u64>,
    after: Set<u64>,
    app: AppData,
    history: Seq<Message>,
    call: Action,
    reply: Action,
    store: Action,
    anchor: u64,
    text: Seq<char>,
    response: ChatCompletionResponse,
    bot_message: u64,
)
    requires
        started.kind == (Kind::Continuation { anchor }),
        template_outcome(started.content@, app.bot_id, app.all_prompts@) == Ok::<
            Option<Seq<char>>,
            MissingSnippet,
        >(Some(text)),
        templated_step(started, before, after, call, history, app),
        response.choices@.len() > 0,
        completion_step(started, answered, Some(response), reply),
        reply_step(answered, replied, Some(bot_message), store),
    ensures
        call is CallCompletion,
        reply is SendReply,
        store matches Action::Update { anchor: a, messages } && a@ == decimal(anchor as nat)
            && messages_view(messages@) == messages_view(history).push((user_role(), text)).push(
            (assistant_role(), response.choices@.last().message.content@),
        ),
{
}

fn copy_message(m: &Message) -> (r: Message)
    ensures
        r == *m,
{
    Message { role: m.role.clone(), content: m.content.clone() }
}

fn copy_messages(ms: &Vec<Message>) -> (r: Vec<Message>)
    ensures
        r@ == ms@,
{
    let mut out: Vec<Message> = Vec::new();
    let mut k: usize = 0;
    while k < ms.len()
        invariant
            k <= ms@.len(),
            out@ == ms@.subrange(0, k as int),
        decreases ms.len() - k,
    {
        out.push(copy_message(&ms[k]));
        k += 1;
        assert(out@ =~= ms@.subrange(0, k as int));
    }
    assert(out@ =~= ms@);
    out
}

/// The messages of the stored conversations, one conversation after another.
pub fn flatten_history(docs: &Vec<ChatDocument>) -> (r: Vec<Message>)
    ensures
        r@ == history_messages(docs@),
{
    let mut out: Vec<Message> = Vec::new();
    let mut k: usize = 0;
    while k < docs.len()
        invariant
            k <= docs@.len(),
            out@ == history_messages(docs@.subrange(0, k as int)),
        decreases docs.len() - k,
    {
        let ms = &docs[k].messages;
        let mut j: usize = 0;
        let ghost start = out@;
        while j < ms.len()
            invariant
                j <= ms@.len(),
                out@ == start + ms@.subrange(0, j as int),
            decreases ms.len() - j,
        {
            out.push(copy_message(&ms[j]));
            j += 1;
            assert(out@ =~= start + ms@.subrange(0, j as int));
        }
        assert(ms@.subrange(0, j as int) =~= ms@);
        assert(docs@.subrange(0, k + 1).drop_last() =~= docs@.subrange(0, k as int));
        k += 1;
    }
    assert(docs@.subrange(0, k as int) =~= docs@);
    out
}

impl Pipeline {
    /// Templates the message and prepares the completion request, given the
    /// prior conversation `history`.
    fn after_history(&mut self, history: Vec<Message>, app: &AppData, registry: &mut ProcessingRegistry) -> (r: Action)
        requires
            old(registry).wf(),
        ensures
            final(registry).wf(),
            final(self).kind == old(self).kind,
            final(self).key == old(self).key,
            final(self).message_id == old(self).message_id,
            final(self).channel_id == old(self).channel_id,
            final(self).content == old(self).content,
            templated_step(*final(self), old(registry)@, final(registry)@, r, history@, *app),
    {
        match template_message(self.content.as_str(), app.bot_id, &app.all_prompts) {
            Err(_) => {
                registry.end(self.key);
                self.stage = Stage::Aborted;
                Action::Nothing
            },
            Ok(Templated::NameMissing) => {
                registry.end(self.key);
                self.stage = Stage::Warning;
                let text: Vec<char> = vec![
                    'Y', 'o', 'u', ' ', 'n', 'e', 'e', 'd', ' ', 't', 'o', ' ', 'p', 'r', 'o', 'v',
                    'i', 'd', 'e', ' ', 'a', ' ', 'n', 'a', 'm', 'e', '.',
                ];
                Action::SendWarning {
                    channel_id: self.channel_id,
                    reply_to: self.message_id,
                    content: string_of(&text),
                }
            },
            Ok(Templated::Ready(t)) => {
                let mut outgoing = history;
                let user = Message { role: string_of(&vec!['u', 's', 'e', 'r']), content: t };
                let ghost prior = outgoing@;
                outgoing.push(user);
                assert(messages_view(outgoing@) =~= messages_view(prior).push(
                    (user_role(), user.content@),
                ));
                let model: Vec<char> = vec![
                    'g', 'p', 't', '-', '3', '.', '5', '-', 't', 'u', 'r', 'b', 'o',
                ];
                let request = ChatCompletionRequest {
                    model: string_of(&model),
                    messages: copy_messages(&outgoing),
                };
                self.outgoing = outgoing;
                self.stage = Stage::AwaitingCompletion;
                Action::CallCompletion { channel_id: self.channel_id, request }
            },
        }
    }

    /// Starts the pipeline for an incoming message. A continuation claims the
    /// anchor and asks for the stored conversation; a new conversation claims
    /// the message's identifier and is templated at once. Nothing starts when
    /// the identifier is already claimed, nor for a ping or an ignored message.
    pub fn start(msg: &IncomingMessage, app: &AppData, registry: &mut ProcessingRegistry) -> (r: (
        Option<Pipeline>,
        Action,
    ))
        requires
            old(registry).wf(),
        ensures
            final(registry).wf(),
            match classification_of(*msg, app.bot_id) {
                Classification::Continuation { anchor } => if begin_succeeds(
                    old(registry)@,
                    anchor,
                ) {
                    &&& final(registry)@ == old(registry)@.insert(anchor)
                    &&& r.0 matches Some(p)
                    &&& p.stage is Resolving
                    &&& p.kind == Kind::Continuation { anchor }
                    &&& p.key == anchor
                    &&& p.message_id == msg.id
                    &&& p.channel_id == msg.channel_id
                    &&& p.content@ == msg.content@
                    &&& r.1 == Action::FetchHistory { anchor }
                } else {
                    &&& final(registry)@ == old(registry)@
                    &&& r.0 is None
                    &&& r.1 is Nothing
                },
                Classification::New => if begin_succeeds(old(registry)@, msg.id) {
                    &&& r.0 matches Some(p)
                    &&& p.kind is New
                    &&& p.key == msg.id
                    &&& p.message_id == msg.id
                    &&& p.channel_id == msg.channel_id
                    &&& p.content@ == msg.content@
                    &&& templated_step(
                        p,
                        old(registry)@.insert(msg.id),
                        final(registry)@,
                        r.1,
                        Seq::empty(),
                        *app,
                    )
                } else {
                    &&& final(registry)@ == old(registry)@
                    &&& r.0 is None
                    &&& r.1 is Nothing
                },
                Classification::Ping => {
                    &&& final(registry)@ == old(registry)@
                    &&& r.0 is None
                    &&& r.1 == Action::Pong { channel_id: msg.channel_id }
                },
                Classification::Ignore => {
                    &&& final(registry)@ == old(registry)@
                    &&& r.0 is None
                    &&& r.1 is Nothing
                },
            },
    {
        match classify(msg, app.bot_id) {
            Classification::Continuation { anchor } => {
                if !registry.try_begin(anchor) {
                    return (None, Action::Nothing);
                }
                let p = Pipeline {
                    stage: Stage::Resolving,
                    kind: Kind::Continuation { anchor },
                    key: anchor,
                    message_id: msg.id,
                    channel_id: msg.channel_id,
                    content: msg.content.clone(),
                    outgoing: Vec::new(),
                    reply: String::new(),
                };
                (Some(p), Action::FetchHistory { anchor })
            },
            Classification::New => {
                if !registry.try_begin(msg.id) {
                    return (None, Action::Nothing);
                }
                let mut p = Pipeline {
                    stage: Stage::Resolving,
                    kind: Kind::New,
                    key: msg.id,
                    message_id: msg.id,
                    channel_id: msg.channel_id,
                    content: msg.content.clone(),
                    outgoing: Vec::new(),
                    reply: String::new(),
                };
                let action = p.after_history(Vec::new(), app, registry);
                (Some(p), action)
            },
            Classification::Ping => (None, Action::Pong { channel_id: msg.channel_id }),
            Classification::Ignore => (None, Action::Nothing),
        }
    }

    /// Takes the stored conversations found for the anchor. With none, the
    /// pipeline ends and releases its entry; otherwise their messages are the
    /// prior history and the message is templated.
    pub fn on_history(&mut self, docs: Vec<ChatDocument>, app: &AppData, registry: &mut ProcessingRegistry) -> (r: Action)
        requires
            old(self).stage is Resolving,
            old(registry).wf(),
        ensures
            final(registry).wf(),
            final(self).kind == old(self).kind,
            final(self).key == old(self).key,
            final(self).message_id == old(self).message_id,
            final(self).channel_id == old(self).channel_id,
            final(self).content == old(self).content,
            docs@.len() == 0 ==> {
                &&& final(self).stage is Aborted
                &&& final(registry)@ == old(registry)@.remove(old(self).key)
                &&& r is Nothing
            },
            docs@.len() > 0 ==> templated_step(
                *final(self),
                old(registry)@,
                final(registry)@,
                r,
                history_messages(docs@),
                *app,
            ),
    {
        if docs.len() == 0 {
            registry.end(self.key);
            self.stage = Stage::Aborted;
            return Action::Nothing;
        }
        let history = flatten_history(&docs);
        self.after_history(history, app, registry)
    }

    /// Takes the completion service's response, `None` when the call or its
    /// decoding failed. The registry entry is released whatever came back; the
    /// last choice's text is posted as a reply, and with no choice the
    /// pipeline ends.
    pub fn on_completion(&mut self, response: Option<ChatCompletionResponse>, registry: &mut ProcessingRegistry) -> (r: Action)
        requires
            old(self).stage is AwaitingCompletion,
            old(registry).wf(),
        ensures
            final(registry).wf(),
            final(registry)@ == old(registry)@.remove(old(self).key),
            completion_step(*old(self), *final(self), response, r),
    {
        registry.end(self.key);
        match response {
            Some(resp) => {
                let mut choices = resp.choices;
                match choices.pop() {
                    Some(choice) => {
                        self.reply = choice.message.content.clone();
                        self.stage = Stage::Replying;
                        Action::SendReply {
                            channel_id: self.channel_id,
                            reply_to: self.message_id,
                            content: choice.message.content,
                        }
                    },
                    None => {
                        self.stage = Stage::Aborted;
                        Action::Nothing
                    },
                }
            },
            None => {
                self.stage = Stage::Aborted;
                Action::Nothing
            },
        }
    }

    /// Takes the identifier of the posted reply, `None` when posting failed.
    /// The answer joins the conversation, which is then stored: as a new
    /// conversation anchored at the reply, or over the messages of the one
    /// that was continued.
    pub fn on_reply_sent(&mut self, sent: Option<u64>) -> (r: Action)
        requires
            old(self).stage is Replying,
        ensures
            reply_step(*old(self), *final(self), sent, r),
    {
        match sent {
            None => {
                self.stage = Stage::Aborted;
                Action::Nothing
            },
            Some(bot_message) => {
                let answer = Message {
                    role: string_of(&vec!['a', 's', 's', 'i', 's', 't', 'a', 'n', 't']),
                    content: self.reply.clone(),
                };
                let ghost prior = self.outgoing@;
                self.outgoing.push(answer);
                assert(messages_view(self.outgoing@) =~= messages_view(prior).push(
                    (assistant_role(), answer.content@),
                ));
                self.stage = Stage::Persisting;
                match self.kind {
                    Kind::New => Action::Insert {
                        document: ChatDocument {
                            id: string_of(&decimal_exec(bot_message)),
                            messages: copy_messages(&self.outgoing),
                        },
                    },
                    Kind::Continuation { anchor } => Action::Update {
                        anchor: string_of(&decimal_exec(anchor)),
                        messages: copy_messages(&self.outgoing),
                    },
                }
            },
        }
    }

    /// Takes whether the conversation was stored; the pipeline is then over.
    pub fn on_stored(&mut self, stored: bool)
        requires
            old(self).stage is Persisting,
        ensures
            *final(self) == (Pipeline {
                stage: if stored { Stage::Done } else { Stage::Aborted },
                ..*old(self)
            }),
    {
        self.stage = if stored { Stage::Done } else { Stage::Aborted };
    }

    /// Takes the identifier of the posted name warning, `None` when posting
    /// failed; a posted warning is deleted after its lifetime.
    pub fn on_warning_sent(&mut self, sent: Option<u64>) -> (r: Action)
        requires
            old(self).stage is Warning,
        ensures
            match sent {
                None => *final(self) == (Pipeline { stage: Stage::Aborted, ..*old(self) })
                    && r is Nothing,
                Some(id) => *final(self) == (Pipeline { stage: Stage::Done, ..*old(self) })
                    && r == Action::DeleteAfter {
                    channel_id: old(self).channel_id,
                    message_id: id,
                    seconds: WARNING_LIFETIME_SECS,
                },
            },
    {
        match sent {
            None => {
                self.stage = Stage::Aborted;
                Action::Nothing
            },
            Some(id) => {
                self.stage = Stage::Done;
                Action::DeleteAfter {
                    channel_id: self.channel_id,
                    message_id: id,
                    seconds: WARNING_LIFETIME_SECS,
                }
            },
        }
    }

    /// Ends the pipeline after an outside call failed, releasing its
    /// registry entry if it still holds it.
    pub fn abort(&mut self, registry: &mut ProcessingRegistry)
        requires
            old(registry).wf(),
        ensures
            final(registry).wf(),
            *final(self) == (Pipeline { stage: Stage::Aborted, ..*old(self) }),
            holds_entry(old(self).stage) ==> final(registry)@ == old(registry)@.remove(
                old(self).key,
            ),
            !holds_entry(old(self).stage) ==> final(registry)@ == old(registry)@,
    {
        match self.stage {
            Stage::Resolving | Stage::AwaitingCompletion => registry.end(self.key),
            _ => {},
        }
        self.stage = Stage::Aborted;
    }
}

} // verus!
