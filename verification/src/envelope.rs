//! The envelope model: every inbound frame kind the stream can carry,
//! the one outbound acknowledgment kind, and the classification of a
//! text frame into them.
//!
//! Classification is structural. The `type` field of the frame picks
//! the kind; the embedded event of an `events_api` frame carries no
//! discriminator, so the three event shapes are tried in the fixed
//! order user, application, bot, and the first that has every required
//! field wins. That order is a documented contract: the application
//! and bot shapes differ only in the `subtype` field.

use vstd::prelude::*;
use crate::json::JsonModel;
use crate::json::JsonValue;
use crate::json::model_u32;
use crate::text::chars_eq_str;
use crate::text::string_from_chars;
use vstd::string::StringExecFns;

verus! {

// ------------------------------------------------------------------
// Models: what each record means.
// ------------------------------------------------------------------

/// Model of a human-authored message event.
pub struct UserEventModel {
    pub user_id: Seq<char>,
    pub category: Seq<char>,
    pub create_timestamp: Seq<char>,
    pub message_id: Seq<char>,
    pub content: Seq<char>,
}

/// Model of one attachment of an application message event.
pub struct AppAttachmentModel {
    pub title: Seq<char>,
    pub content: Seq<char>,
}

/// Model of an application-posted message event.
pub struct AppEventModel {
    pub bot_id: Seq<char>,
    pub category: Seq<char>,
    pub sub_category: Seq<char>,
    pub create_timestamp: Seq<char>,
    pub content: Seq<char>,
    pub attachments: Seq<AppAttachmentModel>,
}

/// Model of a bot message event.
pub struct BotEventModel {
    pub bot_id: Seq<char>,
    pub category: Seq<char>,
    pub create_timestamp: Seq<char>,
    pub content: Seq<char>,
}

/// Model of the untagged event union.
pub enum EventModel {
    User(UserEventModel),
    Application(AppEventModel),
    Bot(BotEventModel),
}

/// Model of an `events_api` payload.
pub struct EventsPayloadModel {
    pub event_id: Seq<char>,
    pub event_type: Seq<char>,
    pub event: EventModel,
}

/// Model of a slash-command payload.
pub struct CommandPayloadModel {
    pub trigger_id: Seq<char>,
    pub command: Seq<char>,
    pub command_args: Seq<char>,
    pub user_name: Seq<char>,
    pub channel_id: Seq<char>,
}

/// Model of the view carried by an interactive payload.
pub struct InteractiveViewModel {
    pub state: JsonModel,
}

/// Model of an interactive payload.
pub struct InteractivePayloadModel {
    pub category: Seq<char>,
    pub view: InteractiveViewModel,
}

/// Model of one classified envelope.
pub enum EnvelopeModel {
    Hello { num_connections: u32 },
    EventsApi { id: Seq<char>, payload: EventsPayloadModel },
    Disconnect { reason: Seq<char> },
    SlashCommand { id: Seq<char>, payload: CommandPayloadModel },
    Interactive { id: Seq<char>, payload: InteractivePayloadModel },
    Unhandled { kind: Seq<char> },
}

impl EnvelopeModel {
    /// The envelope id: present on the acknowledgable kinds, absent on
    /// hello, disconnect and unhandled frames.
    pub open spec fn envelope_id(self) -> Option<Seq<char>> {
        match self {
            EnvelopeModel::EventsApi { id, .. } => Some(id),
            EnvelopeModel::SlashCommand { id, .. } => Some(id),
            EnvelopeModel::Interactive { id, .. } => Some(id),
            _ => None,
        }
    }
}

// ------------------------------------------------------------------
// Records: the data the session works with.
// ------------------------------------------------------------------

/// A human-authored message event.
#[derive(Debug)]
pub struct ReceivedStreamDataEventForUser {
    pub user_id: String,
    pub category: String,
    pub create_timestamp: String,
    pub message_id: String,
    pub content: String,
}

impl View for ReceivedStreamDataEventForUser {
    type V = UserEventModel;

    open spec fn view(&self) -> UserEventModel {
        UserEventModel {
            user_id: self.user_id@,
            category: self.category@,
            create_timestamp: self.create_timestamp@,
            message_id: self.message_id@,
            content: self.content@,
        }
    }
}

/// One attachment of an application message event.
#[derive(Debug)]
pub struct ReceivedStreamDataEventForApplicationAttachment {
    pub title: String,
    pub content: String,
}

impl View for ReceivedStreamDataEventForApplicationAttachment {
    type V = AppAttachmentModel;

    open spec fn view(&self) -> AppAttachmentModel {
        AppAttachmentModel { title: self.title@, content: self.content@ }
    }
}

/// An application-posted message event.
#[derive(Debug)]
pub struct ReceivedStreamDataEventForApplication {
    pub bot_id: String,
    pub category: String,
    pub sub_category: String,
    pub create_timestamp: String,
    pub content: String,
    pub attachments: Vec<ReceivedStreamDataEventForApplicationAttachment>,
}

/// The models of a row of attachments.
pub open spec fn attachments_view(
    atts: Seq<ReceivedStreamDataEventForApplicationAttachment>,
) -> Seq<AppAttachmentModel> {
    Seq::new(
        atts.len(),
        |i: int|
            if 0 <= i < atts.len() {
                atts[i]@
            } else {
                AppAttachmentModel { title: Seq::empty(), content: Seq::empty() }
            },
    )
}

impl View for ReceivedStreamDataEventForApplication {
    type V = AppEventModel;

    open spec fn view(&self) -> AppEventModel {
        AppEventModel {
            bot_id: self.bot_id@,
            category: self.category@,
            sub_category: self.sub_category@,
            create_timestamp: self.create_timestamp@,
            content: self.content@,
            attachments: attachments_view(self.attachments@),
        }
    }
}

/// A bot message event.
#[derive(Debug)]
pub struct ReceivedStreamDataEventForBot {
    pub bot_id: String,
    pub category: String,
    pub create_timestamp: String,
    pub content: String,
}

impl View for ReceivedStreamDataEventForBot {
    type V = BotEventModel;

    open spec fn view(&self) -> BotEventModel {
        BotEventModel {
            bot_id: self.bot_id@,
            category: self.category@,
            create_timestamp: self.create_timestamp@,
            content: self.content@,
        }
    }
}

/// The untagged event union of an `events_api` payload.
#[derive(Debug)]
pub enum ReceivedStreamDataEvent {
    User(ReceivedStreamDataEventForUser),
    Application(ReceivedStreamDataEventForApplication),
    Bot(ReceivedStreamDataEventForBot),
}

impl View for ReceivedStreamDataEvent {
    type V = EventModel;

    open spec fn view(&self) -> EventModel {
        match self {
            ReceivedStreamDataEvent::User(u) => EventModel::User(u@),
            ReceivedStreamDataEvent::Application(a) => EventModel::Application(a@),
            ReceivedStreamDataEvent::Bot(b) => EventModel::Bot(b@),
        }
    }
}

/// The payload of an `events_api` envelope.
#[derive(Debug)]
pub struct ReceivedStreamDataPayload {
    pub event_id: String,
    pub event_type: String,
    pub event: ReceivedStreamDataEvent,
}

impl View for ReceivedStreamDataPayload {
    type V = EventsPayloadModel;

    open spec fn view(&self) -> EventsPayloadModel {
        EventsPayloadModel {
            event_id: self.event_id@,
            event_type: self.event_type@,
            event: self.event@,
        }
    }
}

/// An `events_api` envelope flattened to its id and payload.
#[derive(Debug)]
pub struct ReceivedStreamDataBody {
    pub id: String,
    pub payload: ReceivedStreamDataPayload,
}

/// A hello frame.
#[derive(Debug)]
pub struct ReceivedStreamHello {
    pub category: String,
    pub num_connections: u32,
}

/// A disconnect frame.
#[derive(Debug)]
pub struct ReceivedStreamDisconnect {
    pub category: String,
    pub reason: String,
}

/// The payload of a slash-command envelope.
#[derive(Debug)]
pub struct ReceivedStreamShashCommandPayload {
    pub trigger_id: String,
    pub command: String,
    pub command_args: String,
    pub user_name: String,
    pub channel_id: String,
}

impl View for ReceivedStreamShashCommandPayload {
    type V = CommandPayloadModel;

    open spec fn view(&self) -> CommandPayloadModel {
        CommandPayloadModel {
            trigger_id: self.trigger_id@,
            command: self.command@,
            command_args: self.command_args@,
            user_name: self.user_name@,
            channel_id: self.channel_id@,
        }
    }
}

/// A slash-command envelope flattened to its id and payload.
#[derive(Debug)]
pub struct ReceivedStreamShashCommand {
    pub id: String,
    pub payload: ReceivedStreamShashCommandPayload,
}

/// The view carried by an interactive payload; its state is kept as
/// parsed JSON.
#[derive(Debug)]
pub struct ReceivedStreamInteractivePayloadView {
    pub state: JsonValue,
}

impl View for ReceivedStreamInteractivePayloadView {
    type V = InteractiveViewModel;

    open spec fn view(&self) -> InteractiveViewModel {
        InteractiveViewModel { state: self.state@ }
    }
}

/// The payload of an interactive envelope.
#[derive(Debug)]
pub struct ReceivedStreamInteractivePayload {
    pub category: String,
    pub view: ReceivedStreamInteractivePayloadView,
}

impl View for ReceivedStreamInteractivePayload {
    type V = InteractivePayloadModel;

    open spec fn view(&self) -> InteractivePayloadModel {
        InteractivePayloadModel { category: self.category@, view: self.view@ }
    }
}

/// One classified envelope, by kind. Frames whose `type` tag is none
/// of the known five classify as `Unhandled` rather than failing, so
/// protocol extensions do not end the session.
#[derive(Debug)]
pub enum ReceivedStreamData {
    Hello { num_connections: u32 },
    EventsApi { id: String, payload: ReceivedStreamDataPayload },
    Disconnect { reason: String },
    SlashCommand { id: String, payload: ReceivedStreamShashCommandPayload },
    Interactive { id: String, payload: ReceivedStreamInteractivePayload },
    Unhandled { kind: String },
}

impl View for ReceivedStreamData {
    type V = EnvelopeModel;

    open spec fn view(&self) -> EnvelopeModel {
        match self {
            ReceivedStreamData::Hello { num_connections } => EnvelopeModel::Hello {
                num_connections: *num_connections,
            },
            ReceivedStreamData::EventsApi { id, payload } => EnvelopeModel::EventsApi {
                id: id@,
                payload: payload@,
            },
            ReceivedStreamData::Disconnect { reason } => EnvelopeModel::Disconnect {
                reason: reason@,
            },
            ReceivedStreamData::SlashCommand { id, payload } => EnvelopeModel::SlashCommand {
                id: id@,
                payload: payload@,
            },
            ReceivedStreamData::Interactive { id, payload } => EnvelopeModel::Interactive {
                id: id@,
                payload: payload@,
            },
            ReceivedStreamData::Unhandled { kind } => EnvelopeModel::Unhandled { kind: kind@ },
        }
    }
}

/// A frame that failed to classify, carrying the raw text for
/// diagnostics.
#[derive(Debug)]
pub struct DecodeError {
    pub raw: String,
}

// ------------------------------------------------------------------
// Classification, first as meaning over models.
// ------------------------------------------------------------------

/// The text of a string field, when the model has that field and it is
/// a string.
pub open spec fn field_str(m: JsonModel, key: Seq<char>) -> Option<Seq<char>> {
    match m.field(key) {
        Some(JsonModel::Str(s)) => Some(s),
        _ => None,
    }
}

/// The user shape: all five fields present as strings.
pub open spec fn user_event_model(m: JsonModel) -> Option<UserEventModel> {
    if field_str(m, "user"@) is Some && field_str(m, "type"@) is Some && field_str(m, "ts"@)
        is Some && field_str(m, "client_msg_id"@) is Some && field_str(m, "text"@) is Some {
        Some(
            UserEventModel {
                user_id: field_str(m, "user"@).unwrap(),
                category: field_str(m, "type"@).unwrap(),
                create_timestamp: field_str(m, "ts"@).unwrap(),
                message_id: field_str(m, "client_msg_id"@).unwrap(),
                content: field_str(m, "text"@).unwrap(),
            },
        )
    } else {
        None
    }
}

/// One attachment: title and text as strings.
pub open spec fn attachment_model(m: JsonModel) -> Option<AppAttachmentModel> {
    if field_str(m, "title"@) is Some && field_str(m, "text"@) is Some {
        Some(
            AppAttachmentModel {
                title: field_str(m, "title"@).unwrap(),
                content: field_str(m, "text"@).unwrap(),
            },
        )
    } else {
        None
    }
}

/// Every element matches the attachment shape.
pub open spec fn attachments_all_ok(items: Seq<JsonModel>) -> bool {
    forall|k: int| 0 <= k < items.len() ==> attachment_model(items[k]) is Some
}

/// The attachments of a row of matching elements.
pub open spec fn attachments_models(items: Seq<JsonModel>) -> Seq<AppAttachmentModel> {
    Seq::new(
        items.len(),
        |k: int|
            if 0 <= k < items.len() && attachment_model(items[k]) is Some {
                attachment_model(items[k]).unwrap()
            } else {
                AppAttachmentModel { title: Seq::empty(), content: Seq::empty() }
            },
    )
}

/// The application shape: five string fields including `subtype`; the
/// attachment row may be absent, which means empty.
pub open spec fn app_event_model(m: JsonModel) -> Option<AppEventModel> {
    if field_str(m, "bot_id"@) is Some && field_str(m, "type"@) is Some && field_str(
        m,
        "subtype"@,
    ) is Some && field_str(m, "ts"@) is Some && field_str(m, "text"@) is Some {
        let base = AppEventModel {
            bot_id: field_str(m, "bot_id"@).unwrap(),
            category: field_str(m, "type"@).unwrap(),
            sub_category: field_str(m, "subtype"@).unwrap(),
            create_timestamp: field_str(m, "ts"@).unwrap(),
            content: field_str(m, "text"@).unwrap(),
            attachments: Seq::empty(),
        };
        match m.field("attachments"@) {
            Some(JsonModel::Arr(items)) => if attachments_all_ok(items) {
                Some(AppEventModel { attachments: attachments_models(items), ..base })
            } else {
                None
            },
            Some(_) => None,
            None => Some(base),
        }
    } else {
        None
    }
}

/// The bot shape: four string fields, no `subtype`.
pub open spec fn bot_event_model(m: JsonModel) -> Option<BotEventModel> {
    if field_str(m, "bot_id"@) is Some && field_str(m, "type"@) is Some && field_str(m, "ts"@)
        is Some && field_str(m, "text"@) is Some {
        Some(
            BotEventModel {
                bot_id: field_str(m, "bot_id"@).unwrap(),
                category: field_str(m, "type"@).unwrap(),
                create_timestamp: field_str(m, "ts"@).unwrap(),
                content: field_str(m, "text"@).unwrap(),
            },
        )
    } else {
        None
    }
}

/// The untagged union, tried in the fixed order user, application,
/// bot; the first matching shape wins.
pub open spec fn event_model(m: JsonModel) -> Option<EventModel> {
    if user_event_model(m) is Some {
        Some(EventModel::User(user_event_model(m).unwrap()))
    } else if app_event_model(m) is Some {
        Some(EventModel::Application(app_event_model(m).unwrap()))
    } else if bot_event_model(m) is Some {
        Some(EventModel::Bot(bot_event_model(m).unwrap()))
    } else {
        None
    }
}

/// An `events_api` payload: `event_id` and `type` as strings and an
/// event matching one of the three shapes.
pub open spec fn events_payload_model(m: JsonModel) -> Option<EventsPayloadModel> {
    if field_str(m, "event_id"@) is Some && field_str(m, "type"@) is Some {
        match m.field("event"@) {
            Some(ev) => match event_model(ev) {
                Some(e) => Some(
                    EventsPayloadModel {
                        event_id: field_str(m, "event_id"@).unwrap(),
                        event_type: field_str(m, "type"@).unwrap(),
                        event: e,
                    },
                ),
                None => None,
            },
            None => None,
        }
    } else {
        None
    }
}

/// A slash-command payload: all five fields as strings.
pub open spec fn command_payload_model(m: JsonModel) -> Option<CommandPayloadModel> {
    if field_str(m, "trigger_id"@) is Some && field_str(m, "command"@) is Some && field_str(
        m,
        "text"@,
    ) is Some && field_str(m, "user_name"@) is Some && field_str(m, "channel_id"@) is Some {
        Some(
            CommandPayloadModel {
                trigger_id: field_str(m, "trigger_id"@).unwrap(),
                command: field_str(m, "command"@).unwrap(),
                command_args: field_str(m, "text"@).unwrap(),
                user_name: field_str(m, "user_name"@).unwrap(),
                channel_id: field_str(m, "channel_id"@).unwrap(),
            },
        )
    } else {
        None
    }
}

/// An interactive payload: `type` as string and a view holding a
/// `state` of any shape.
pub open spec fn interactive_payload_model(m: JsonModel) -> Option<InteractivePayloadModel> {
    if field_str(m, "type"@) is Some {
        match m.field("view"@) {
            Some(w) => match w.field("state"@) {
                Some(st) => Some(
                    InteractivePayloadModel {
                        category: field_str(m, "type"@).unwrap(),
                        view: InteractiveViewModel { state: st },
                    },
                ),
                None => None,
            },
            None => None,
        }
    } else {
        None
    }
}

/// What a parsed frame classifies to: the kind named by its `type`
/// tag with that kind's required fields, an `Unhandled` envelope for
/// an unknown tag, and nothing when a required field is missing or the
/// tag itself is absent.
pub open spec fn classify_model(m: JsonModel) -> Option<EnvelopeModel> {
    match field_str(m, "type"@) {
        Some(t) => {
            if t == "hello"@ {
                match m.field("num_connections"@) {
                    Some(n) => match model_u32(n) {
                        Some(nc) => Some(EnvelopeModel::Hello { num_connections: nc }),
                        None => None,
                    },
                    None => None,
                }
            } else if t == "events_api"@ {
                if field_str(m, "envelope_id"@) is Some {
                    match m.field("payload"@) {
                        Some(p) => match events_payload_model(p) {
                            Some(pm) => Some(
                                EnvelopeModel::EventsApi {
                                    id: field_str(m, "envelope_id"@).unwrap(),
                                    payload: pm,
                                },
                            ),
                            None => None,
                        },
                        None => None,
                    }
                } else {
                    None
                }
            } else if t == "disconnect"@ {
                match field_str(m, "reason"@) {
                    Some(rr) => Some(EnvelopeModel::Disconnect { reason: rr }),
                    None => None,
                }
            } else if t == "slash_commands"@ {
                if field_str(m, "envelope_id"@) is Some {
                    match m.field("payload"@) {
                        Some(p) => match command_payload_model(p) {
                            Some(pm) => Some(
                                EnvelopeModel::SlashCommand {
                                    id: field_str(m, "envelope_id"@).unwrap(),
                                    payload: pm,
                                },
                            ),
                            None => None,
                        },
                        None => None,
                    }
                } else {
                    None
                }
            } else if t == "interactive"@ {
                if field_str(m, "envelope_id"@) is Some {
                    match m.field("payload"@) {
                        Some(p) => match interactive_payload_model(p) {
                            Some(pm) => Some(
                                EnvelopeModel::Interactive {
                                    id: field_str(m, "envelope_id"@).unwrap(),
                                    payload: pm,
                                },
                            ),
                            None => None,
                        },
                        None => None,
                    }
                } else {
                    None
                }
            } else {
                Some(EnvelopeModel::Unhandled { kind: t })
            }
        },
        None => None,
    }
}

/// What a raw text frame classifies to: nothing when the grammar
/// rejects the text, otherwise what its model classifies to.
pub open spec fn classify_text(s: Seq<char>) -> Option<EnvelopeModel> {
    match crate::json::sp_json(s) {
        Some(m) => classify_model(m),
        None => None,
    }
}

// ------------------------------------------------------------------
// Classification, executed.
// ------------------------------------------------------------------

/// The text of a string field of `v`, when present.
fn str_field(v: &JsonValue, key: &str) -> (r: Option<String>)
    ensures
        match r {
            Some(t) => field_str(v@, key@) == Some(t@),
            None => field_str(v@, key@) is None,
        },
{
    match v.get(key) {
        Some(f) => f.str_value(),
        None => None,
    }
}

fn user_event_from(v: &JsonValue) -> (r: Option<ReceivedStreamDataEventForUser>)
    ensures
        match r {
            Some(e) => user_event_model(v@) == Some(e@),
            None => user_event_model(v@) is None,
        },
{
    let user_id = match str_field(v, "user") {
        Some(t) => t,
        None => {
            return None;
        },
    };
    let category = match str_field(v, "type") {
        Some(t) => t,
        None => {
            return None;
        },
    };
    let create_timestamp = match str_field(v, "ts") {
        Some(t) => t,
        None => {
            return None;
        },
    };
    let message_id = match str_field(v, "client_msg_id") {
        Some(t) => t,
        None => {
            return None;
        },
    };
    let content = match str_field(v, "text") {
        Some(t) => t,
        None => {
            return None;
        },
    };
    Some(
        ReceivedStreamDataEventForUser {
            user_id,
            category,
            create_timestamp,
            message_id,
            content,
        },
    )
}

fn attachment_from(v: &JsonValue) -> (r: Option<ReceivedStreamDataEventForApplicationAttachment>)
    ensures
        match r {
            Some(e) => attachment_model(v@) == Some(e@),
            None => attachment_model(v@) is None,
        },
{
    let title = match str_field(v, "title") {
        Some(t) => t,
        None => {
            return None;
        },
    };
    let content = match str_field(v, "text") {
        Some(t) => t,
        None => {
            return None;
        },
    };
    Some(ReceivedStreamDataEventForApplicationAttachment { title, content })
}

#[verifier::loop_isolation(false)]
fn app_event_from(v: &JsonValue) -> (r: Option<ReceivedStreamDataEventForApplication>)
    ensures
        match r {
            Some(e) => app_event_model(v@) == Some(e@),
            None => app_event_model(v@) is None,
        },
{
    let bot_id = match str_field(v, "bot_id") {
        Some(t) => t,
        None => {
            return None;
        },
    };
    let category = match str_field(v, "type") {
        Some(t) => t,
        None => {
            return None;
        },
    };
    let sub_category = match str_field(v, "subtype") {
        Some(t) => t,
        None => {
            return None;
        },
    };
    let create_timestamp = match str_field(v, "ts") {
        Some(t) => t,
        None => {
            return None;
        },
    };
    let content = match str_field(v, "text") {
        Some(t) => t,
        None => {
            return None;
        },
    };
    let attachments: Vec<ReceivedStreamDataEventForApplicationAttachment> = match v.get(
        "attachments",
    ) {
        None => {
            let out: Vec<ReceivedStreamDataEventForApplicationAttachment> = Vec::new();
            proof {
                assert(attachments_view(out@) =~= Seq::<AppAttachmentModel>::empty());
            }
            out
        },
        Some(av) => match av {
            JsonValue::Arr(items) => {
                let ghost items_m = crate::json::arr_model(items@);
                let mut out: Vec<ReceivedStreamDataEventForApplicationAttachment> = Vec::new();
                let mut i: usize = 0;
                while i < items.len()
                    invariant
                        i <= items@.len(),
                        out@.len() == i,
                        items_m == crate::json::arr_model(items@),
                        items_m.len() == items@.len(),
                        forall|k: int|
                            0 <= k < i ==> attachment_model(items_m[k]) == Some(out@[k]@),
                    decreases items@.len() - i,
                {
                    match attachment_from(&items[i]) {
                        Some(a) => {
                            out.push(a);
                        },
                        None => {
                            proof {
                                assert(attachment_model(items_m[i as int]) is None);
                            }
                            return None;
                        },
                    }
                    i = i + 1;
                }
                proof {
                    assert(attachments_all_ok(items_m));
                    assert(attachments_view(out@) =~= attachments_models(items_m));
                }
                out
            },
            _ => {
                return None;
            },
        },
    };
    Some(
        ReceivedStreamDataEventForApplication {
            bot_id,
            category,
            sub_category,
            create_timestamp,
            content,
            attachments,
        },
    )
}

fn bot_event_from(v: &JsonValue) -> (r: Option<ReceivedStreamDataEventForBot>)
    ensures
        match r {
            Some(e) => bot_event_model(v@) == Some(e@),
            None => bot_event_model(v@) is None,
        },
{
    let bot_id = match str_field(v, "bot_id") {
        Some(t) => t,
        None => {
            return None;
        },
    };
    let category = match str_field(v, "type") {
        Some(t) => t,
        None => {
            return None;
        },
    };
    let create_timestamp = match str_field(v, "ts") {
        Some(t) => t,
        None => {
            return None;
        },
    };
    let content = match str_field(v, "text") {
        Some(t) => t,
        None => {
            return None;
        },
    };
    Some(ReceivedStreamDataEventForBot { bot_id, category, create_timestamp, content })
}

/// The untagged union, decoded in the fixed order user, application,
/// bot.
fn event_from(v: &JsonValue) -> (r: Option<ReceivedStreamDataEvent>)
    ensures
        match r {
            Some(e) => event_model(v@) == Some(e@),
            None => event_model(v@) is None,
        },
{
    if let Some(u) = user_event_from(v) {
        return Some(ReceivedStreamDataEvent::User(u));
    }
    if let Some(a) = app_event_from(v) {
        return Some(ReceivedStreamDataEvent::Application(a));
    }
    if let Some(b) = bot_event_from(v) {
        return Some(ReceivedStreamDataEvent::Bot(b));
    }
    None
}

fn events_payload_from(v: &JsonValue) -> (r: Option<ReceivedStreamDataPayload>)
    ensures
        match r {
            Some(p) => events_payload_model(v@) == Some(p@),
            None => events_payload_model(v@) is None,
        },
{
    let event_id = match str_field(v, "event_id") {
        Some(t) => t,
        None => {
            return None;
        },
    };
    let event_type = match str_field(v, "type") {
        Some(t) => t,
        None => {
            return None;
        },
    };
    let ev = match v.get("event") {
        Some(e) => e,
        None => {
            return None;
        },
    };
    match event_from(ev) {
        Some(event) => Some(ReceivedStreamDataPayload { event_id, event_type, event }),
        None => None,
    }
}

fn command_payload_from(v: &JsonValue) -> (r: Option<ReceivedStreamShashCommandPayload>)
    ensures
        match r {
            Some(p) => command_payload_model(v@) == Some(p@),
            None => command_payload_model(v@) is None,
        },
{
    let trigger_id = match str_field(v, "trigger_id") {
        Some(t) => t,
        None => {
            return None;
        },
    };
    let command = match str_field(v, "command") {
        Some(t) => t,
        None => {
            return None;
        },
    };
    let command_args = match str_field(v, "text") {
        Some(t) => t,
        None => {
            return None;
        },
    };
    let user_name = match str_field(v, "user_name") {
        Some(t) => t,
        None => {
            return None;
        },
    };
    let channel_id = match str_field(v, "channel_id") {
        Some(t) => t,
        None => {
            return None;
        },
    };
    Some(
        ReceivedStreamShashCommandPayload {
            trigger_id,
            command,
            command_args,
            user_name,
            channel_id,
        },
    )
}

fn interactive_payload_from(v: &JsonValue) -> (r: Option<ReceivedStreamInteractivePayload>)
    ensures
        match r {
            Some(p) => interactive_payload_model(v@) == Some(p@),
            None => interactive_payload_model(v@) is None,
        },
{
    let category = match str_field(v, "type") {
        Some(t) => t,
        None => {
            return None;
        },
    };
    let w = match v.get("view") {
        Some(w) => w,
        None => {
            return None;
        },
    };
    let state = match w.get("state") {
        Some(st) => st.duplicate(),
        None => {
            return None;
        },
    };
    Some(
        ReceivedStreamInteractivePayload {
            category,
            view: ReceivedStreamInteractivePayloadView { state },
        },
    )
}

/// Classifies one parsed frame by its `type` tag.
pub fn classify_value(v: &JsonValue) -> (r: Option<ReceivedStreamData>)
    ensures
        match r {
            Some(env) => classify_model(v@) == Some(env@),
            None => classify_model(v@) is None,
        },
{
    let t = match v.get("type") {
        Some(tv) => match tv.chars_value() {
            Some(cs) => cs,
            None => {
                return None;
            },
        },
        None => {
            return None;
        },
    };
    if chars_eq_str(&t, "hello") {
        let n = match v.get("num_connections") {
            Some(nv) => nv.as_u32(),
            None => {
                return None;
            },
        };
        match n {
            Some(num_connections) => Some(ReceivedStreamData::Hello { num_connections }),
            None => None,
        }
    } else if chars_eq_str(&t, "events_api") {
        let id = match str_field(v, "envelope_id") {
            Some(t2) => t2,
            None => {
                return None;
            },
        };
        let p = match v.get("payload") {
            Some(p) => p,
            None => {
                return None;
            },
        };
        match events_payload_from(p) {
            Some(payload) => Some(ReceivedStreamData::EventsApi { id, payload }),
            None => None,
        }
    } else if chars_eq_str(&t, "disconnect") {
        match str_field(v, "reason") {
            Some(reason) => Some(ReceivedStreamData::Disconnect { reason }),
            None => None,
        }
    } else if chars_eq_str(&t, "slash_commands") {
        let id = match str_field(v, "envelope_id") {
            Some(t2) => t2,
            None => {
                return None;
            },
        };
        let p = match v.get("payload") {
            Some(p) => p,
            None => {
                return None;
            },
        };
        match command_payload_from(p) {
            Some(payload) => Some(ReceivedStreamData::SlashCommand { id, payload }),
            None => None,
        }
    } else if chars_eq_str(&t, "interactive") {
        let id = match str_field(v, "envelope_id") {
            Some(t2) => t2,
            None => {
                return None;
            },
        };
        let p = match v.get("payload") {
            Some(p) => p,
            None => {
                return None;
            },
        };
        match interactive_payload_from(p) {
            Some(payload) => Some(ReceivedStreamData::Interactive { id, payload }),
            None => None,
        }
    } else {
        Some(ReceivedStreamData::Unhandled { kind: string_from_chars(&t) })
    }
}

/// Classifies one raw text frame. Succeeds exactly when the grammar
/// accepts the text and the frame carries a recognisable shape; a
/// failure returns the raw text for diagnostics.
pub fn classify(raw: &str) -> (r: Result<ReceivedStreamData, DecodeError>)
    ensures
        match r {
            Ok(env) => classify_text(raw@) == Some(env@),
            Err(e) => classify_text(raw@) is None && e.raw@ == raw@,
        },
{
    match crate::json::parse_json(raw) {
        Some(v) => match classify_value(&v) {
            Some(env) => Ok(env),
            None => Err(DecodeError { raw: String::from_str(raw) }),
        },
        None => Err(DecodeError { raw: String::from_str(raw) }),
    }
}

// ------------------------------------------------------------------
// Reading a classified envelope.
// ------------------------------------------------------------------

impl ReceivedStreamDataEvent {
    /// A copy equal in model.
    fn duplicate(&self) -> (r: Self)
        ensures
            r@ == self@,
    {
        match self {
            ReceivedStreamDataEvent::User(u) => ReceivedStreamDataEvent::User(
                ReceivedStreamDataEventForUser {
                    user_id: u.user_id.clone(),
                    category: u.category.clone(),
                    create_timestamp: u.create_timestamp.clone(),
                    message_id: u.message_id.clone(),
                    content: u.content.clone(),
                },
            ),
            ReceivedStreamDataEvent::Application(a) => {
                let mut atts: Vec<ReceivedStreamDataEventForApplicationAttachment> = Vec::new();
                let mut i: usize = 0;
                while i < a.attachments.len()
                    invariant
                        i <= a.attachments@.len(),
                        atts@.len() == i,
                        forall|k: int| 0 <= k < i ==> atts@[k]@ == a.attachments@[k]@,
                    decreases a.attachments@.len() - i,
                {
                    atts.push(
                        ReceivedStreamDataEventForApplicationAttachment {
                            title: a.attachments[i].title.clone(),
                            content: a.attachments[i].content.clone(),
                        },
                    );
                    i = i + 1;
                }
                proof {
                    assert(attachments_view(atts@) =~= attachments_view(a.attachments@));
                }
                ReceivedStreamDataEvent::Application(
                    ReceivedStreamDataEventForApplication {
                        bot_id: a.bot_id.clone(),
                        category: a.category.clone(),
                        sub_category: a.sub_category.clone(),
                        create_timestamp: a.create_timestamp.clone(),
                        content: a.content.clone(),
                        attachments: atts,
                    },
                )
            },
            ReceivedStreamDataEvent::Bot(b) => ReceivedStreamDataEvent::Bot(
                ReceivedStreamDataEventForBot {
                    bot_id: b.bot_id.clone(),
                    category: b.category.clone(),
                    create_timestamp: b.create_timestamp.clone(),
                    content: b.content.clone(),
                },
            ),
        }
    }
}

impl ReceivedStreamData {
    /// The flattened body of an `events_api` envelope, and nothing for
    /// every other kind.
    pub fn get_body(&self) -> (r: Option<ReceivedStreamDataBody>)
        ensures
            match r {
                Some(b) => (self@ matches EnvelopeModel::EventsApi { id, payload } && b.id@ == id
                    && b.payload@ == payload),
                None => !(self@ is EventsApi),
            },
    {
        match self {
            ReceivedStreamData::EventsApi { id, payload } => Some(
                ReceivedStreamDataBody {
                    id: id.clone(),
                    payload: ReceivedStreamDataPayload {
                        event_id: payload.event_id.clone(),
                        event_type: payload.event_type.clone(),
                        event: payload.event.duplicate(),
                    },
                },
            ),
            _ => None,
        }
    }

    /// The id and payload of a slash-command envelope, and nothing for
    /// every other kind.
    pub fn get_command(&self) -> (r: Option<ReceivedStreamShashCommand>)
        ensures
            match r {
                Some(c) => (self@ matches EnvelopeModel::SlashCommand { id, payload } && c.id@
                    == id && c.payload@ == payload),
                None => !(self@ is SlashCommand),
            },
    {
        match self {
            ReceivedStreamData::SlashCommand { id, payload } => Some(
                ReceivedStreamShashCommand {
                    id: id.clone(),
                    payload: ReceivedStreamShashCommandPayload {
                        trigger_id: payload.trigger_id.clone(),
                        command: payload.command.clone(),
                        command_args: payload.command_args.clone(),
                        user_name: payload.user_name.clone(),
                        channel_id: payload.channel_id.clone(),
                    },
                },
            ),
            _ => None,
        }
    }

    /// The envelope id: present exactly on the kinds that must be
    /// acknowledged.
    pub fn get_id(&self) -> (r: Option<String>)
        ensures
            match r {
                Some(id) => self@.envelope_id() == Some(id@),
                None => self@.envelope_id() is None,
            },
    {
        match self {
            ReceivedStreamData::EventsApi { id, .. } => Some(id.clone()),
            ReceivedStreamData::SlashCommand { id, .. } => Some(id.clone()),
            ReceivedStreamData::Interactive { id, .. } => Some(id.clone()),
            _ => None,
        }
    }

    /// Whether this envelope signals the end of the session.
    pub fn is_disconnect(&self) -> (r: bool)
        ensures
            r == (self@ is Disconnect),
    {
        matches!(self, ReceivedStreamData::Disconnect { .. })
    }
}

// ------------------------------------------------------------------
// The outbound acknowledgment.
// ------------------------------------------------------------------

/// The model of an acknowledgment frame: one field naming the
/// envelope, nothing else.
pub open spec fn ack_model(id: Seq<char>) -> JsonModel {
    JsonModel::Obj(seq![("envelope_id"@, JsonModel::Str(id))])
}

/// The wire text of an acknowledgment.
pub open spec fn ack_text(id: Seq<char>) -> Seq<char> {
    crate::json::enc_value(ack_model(id))
}

/// The acknowledgment sent back for one received envelope.
#[derive(Debug)]
pub struct SendStreamAcknowledge {
    pub id: String,
}

impl SendStreamAcknowledge {
    pub fn new(id: &str) -> (r: Self)
        ensures
            r.id@ == id@,
    {
        SendStreamAcknowledge { id: String::from_str(id) }
    }

    /// The text frame that acknowledges the envelope.
    pub fn to_text(&self) -> (r: String)
        ensures
            r@ == ack_text(self.id@),
    {
        let mut fields: Vec<(Vec<char>, JsonValue)> = Vec::new();
        let key = crate::text::chars_of("envelope_id");
        let val = crate::text::chars_of(self.id.as_str());
        fields.push((key, JsonValue::Str(val)));
        proof {
            assert(crate::json::obj_model(fields@) =~= seq![
                ("envelope_id"@, JsonModel::Str(self.id@)),
            ]);
        }
        let v = JsonValue::Obj(fields);
        v.to_text()
    }
}

// ------------------------------------------------------------------
// Law: the acknowledgment round-trips.
// ------------------------------------------------------------------

/// Parsing the encoded acknowledgment yields, for every id, an object
/// holding exactly one field, `envelope_id`, bearing that very id —
/// no extra fields, no change to the id.
#[verifier::rlimit(60)]
pub proof fn lemma_ack_round_trip(id: Seq<char>)
    ensures
        crate::json::sp_json(ack_text(id)) == Some(ack_model(id)),
{
    let key = "envelope_id"@;
    let kk = crate::json::enc_str_body(key);
    let ii = crate::json::enc_str_body(id);
    let fields = seq![(key, JsonModel::Str(id))];
    let text = ack_text(id);
    assert(crate::json::enc_value(JsonModel::Str(id)) == seq!['"'] + ii + seq!['"']);
    assert(crate::json::enc_members(fields, 0) == seq!['"'] + kk + seq!['"', ':'] + (seq!['"'] + ii
        + seq!['"']));
    assert(text == seq!['{'] + crate::json::enc_members(fields, 0) + seq!['}']);
    let kl = kk.len() as int;
    let il = ii.len() as int;
    assert(text =~= seq!['{', '"'] + kk + seq!['"', ':', '"'] + ii + seq!['"', '}']);
    assert(text.len() == kl + il + 7);
    assert(text[0] == '{');
    assert(text[1] == '"');
    assert(text.subrange(2, 2 + kl) =~= kk);
    assert(text[2 + kl] == '"');
    assert(text[3 + kl] == ':');
    assert(text[4 + kl] == '"');
    assert(text.subrange(5 + kl, 5 + kl + il) =~= ii);
    assert(text[5 + kl + il] == '"');
    assert(text[6 + kl + il] == '}');
    assert(crate::json::sp_ws(text, 0) == 0);
    assert(crate::json::sp_ws(text, 1) == 1);
    assert(key.subrange(0, key.len() as int) =~= key);
    assert(id.subrange(0, id.len() as int) =~= id);
    crate::json::lemma_parse_enc_str(text, 2, key, 0);
    assert(crate::json::sp_string_body(text, 2) == Some((key, 3 + kl)));
    assert(crate::json::sp_ws(text, 3 + kl) == 3 + kl);
    assert(crate::json::sp_ws(text, 4 + kl) == 4 + kl);
    crate::json::lemma_parse_enc_str(text, 5 + kl, id, 0);
    assert(crate::json::sp_string_body(text, 5 + kl) == Some((id, 6 + kl + il)));
    assert(crate::json::sp_value(text, 4 + kl) == Some((JsonModel::Str(id), 6 + kl + il)));
    assert(crate::json::sp_ws(text, 6 + kl + il) == 6 + kl + il);
    assert(crate::json::sp_members(text, 1) == Some((fields, 7 + kl + il)));
    assert(crate::json::sp_value(text, 0) == Some((JsonModel::Obj(fields), 7 + kl + il)));
    assert(crate::json::sp_ws(text, 7 + kl + il) == text.len());
}

// ------------------------------------------------------------------
// Law: classification keeps the envelope id.
// ------------------------------------------------------------------

/// For every text frame that classifies to the `events_api` kind, the
/// id the classified envelope hands back is the frame's own
/// `envelope_id` field, unchanged.
pub proof fn lemma_events_envelope_id_kept(s: Seq<char>)
    requires
        classify_text(s) matches Some(EnvelopeModel::EventsApi { .. }),
    ensures
        classify_text(s).unwrap().envelope_id() == field_str(
            crate::json::sp_json(s).unwrap(),
            "envelope_id"@,
        ),
{
}

} // verus!
