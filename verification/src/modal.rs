//! The modal-dialog request that the command handler submits, and the
//! decision over the platform's response. Building the request and
//! judging the response are pure; the HTTP call around them belongs to
//! the surrounding program.

use vstd::prelude::*;
use crate::envelope::field_str;
use crate::json::JsonModel;
use crate::json::JsonValue;
use crate::json::enc_value;
use crate::json::sp_json;
use crate::text::chars_of;
use vstd::string::StringExecFns;

verus! {

/// A short plain-text element of the dialog.
#[derive(Debug)]
pub struct RequestBodyPlainText {
    pub content_type: String,
    pub content: String,
}

/// The single input element of one dialog block.
#[derive(Debug)]
pub struct RequestBodyInputDetail {
    pub id: String,
    pub content_type: String,
    pub detail: RequestBodyPlainText,
}

/// One labelled input block of the dialog.
#[derive(Debug)]
pub struct RequestBodyInput {
    pub id: String,
    pub content_type: String,
    pub content: RequestBodyPlainText,
    pub detail: RequestBodyInputDetail,
}

/// The dialog itself: title, blocks, and the two buttons.
#[derive(Debug)]
pub struct RequestBodyData {
    pub view_type: String,
    pub title: RequestBodyPlainText,
    pub blocks: Vec<RequestBodyInput>,
    pub submit: RequestBodyPlainText,
    pub close: RequestBodyPlainText,
}

/// The whole request: the trigger that allows the dialog, and the
/// dialog.
#[derive(Debug)]
pub struct RequestBody {
    pub trigger_id: String,
    pub body: RequestBodyData,
}

/// The JSON model of a plain-text element, under its wire names.
pub open spec fn plain_text_json(p: RequestBodyPlainText) -> JsonModel {
    JsonModel::Obj(
        seq![
            ("type"@, JsonModel::Str(p.content_type@)),
            ("text"@, JsonModel::Str(p.content@)),
        ],
    )
}

/// The JSON model of an input element, under its wire names.
pub open spec fn input_detail_json(d: RequestBodyInputDetail) -> JsonModel {
    JsonModel::Obj(
        seq![
            ("action_id"@, JsonModel::Str(d.id@)),
            ("type"@, JsonModel::Str(d.content_type@)),
            ("placeholder"@, plain_text_json(d.detail)),
        ],
    )
}

/// The JSON model of one block, under its wire names.
pub open spec fn input_json(b: RequestBodyInput) -> JsonModel {
    JsonModel::Obj(
        seq![
            ("block_id"@, JsonModel::Str(b.id@)),
            ("type"@, JsonModel::Str(b.content_type@)),
            ("label"@, plain_text_json(b.content)),
            ("element"@, input_detail_json(b.detail)),
        ],
    )
}

/// The JSON models of a row of blocks.
pub open spec fn blocks_json(blocks: Seq<RequestBodyInput>) -> Seq<JsonModel> {
    Seq::new(
        blocks.len(),
        |i: int|
            if 0 <= i < blocks.len() {
                input_json(blocks[i])
            } else {
                JsonModel::Null
            },
    )
}

/// The JSON model of the dialog, under its wire names.
pub open spec fn body_data_json(d: RequestBodyData) -> JsonModel {
    JsonModel::Obj(
        seq![
            ("type"@, JsonModel::Str(d.view_type@)),
            ("title"@, plain_text_json(d.title)),
            ("blocks"@, JsonModel::Arr(blocks_json(d.blocks@))),
            ("submit"@, plain_text_json(d.submit)),
            ("close"@, plain_text_json(d.close)),
        ],
    )
}

/// The JSON model of the whole request, under its wire names.
pub open spec fn request_body_json(r: RequestBody) -> JsonModel {
    JsonModel::Obj(
        seq![
            ("trigger_id"@, JsonModel::Str(r.trigger_id@)),
            ("view"@, body_data_json(r.body)),
        ],
    )
}

fn plain_text(kind: &str, text: &str) -> (r: RequestBodyPlainText)
    ensures
        r.content_type@ == kind@,
        r.content@ == text@,
{
    RequestBodyPlainText { content_type: String::from_str(kind), content: String::from_str(text) }
}

impl RequestBody {
    /// A modal dialog named by `title`, holding the given blocks, with
    /// a submit and a cancel button.
    pub fn new_modal(trigger_id: &str, title: &str, blocks: Vec<RequestBodyInput>) -> (r:
        RequestBody)
        ensures
            r.trigger_id@ == trigger_id@,
            r.body.view_type@ == "modal"@,
            r.body.title.content_type@ == "plain_text"@,
            r.body.title.content@ == title@,
            r.body.blocks@ == blocks@,
            r.body.submit.content_type@ == "plain_text"@,
            r.body.submit.content@ == "submit"@,
            r.body.close.content_type@ == "plain_text"@,
            r.body.close.content@ == "cancel"@,
    {
        RequestBody {
            trigger_id: String::from_str(trigger_id),
            body: RequestBodyData {
                view_type: String::from_str("modal"),
                title: plain_text("plain_text", title),
                blocks,
                close: plain_text("plain_text", "cancel"),
                submit: plain_text("plain_text", "submit"),
            },
        }
    }

    /// One plain-text input block: its label is `title`, its element
    /// carries the placeholder and an action id derived from the block
    /// id.
    pub fn new_block(id: &str, title: &str, placeholder: &str) -> (r: RequestBodyInput)
        ensures
            r.id@ == id@,
            r.content_type@ == "input"@,
            r.content.content_type@ == "plain_text"@,
            r.content.content@ == title@,
            r.detail.id@ == "action_"@ + id@,
            r.detail.content_type@ == "plain_text_input"@,
            r.detail.detail.content_type@ == "plain_text"@,
            r.detail.detail.content@ == placeholder@,
    {
        RequestBodyInput {
            id: String::from_str(id),
            content_type: String::from_str("input"),
            content: plain_text("plain_text", title),
            detail: RequestBodyInputDetail {
                id: String::from_str("action_").concat(id),
                content_type: String::from_str("plain_text_input"),
                detail: plain_text("plain_text", placeholder),
            },
        }
    }

    /// The email input block of the user-creation dialog.
    pub fn new_email_block() -> (r: RequestBodyInput)
        ensures
            r.id@ == "email"@,
            r.content.content@ == "Email Address"@,
            r.detail.detail.content@ == "Enter an email"@,
    {
        Self::new_block("email", "Email Address", "Enter an email")
    }

    /// The password input block of the user-creation dialog.
    pub fn new_password_block() -> (r: RequestBodyInput)
        ensures
            r.id@ == "password"@,
            r.content.content@ == "Password"@,
            r.detail.detail.content@ == "Password must be over 8 words"@,
    {
        Self::new_block("password", "Password", "Password must be over 8 words")
    }

    /// The user-creation dialog: an email block and a password block.
    pub fn new_create_user_modal(trigger_id: &str) -> (r: RequestBody)
        ensures
            r.trigger_id@ == trigger_id@,
            r.body.view_type@ == "modal"@,
            r.body.title.content@ == "Create User"@,
            r.body.blocks@.len() == 2,
            r.body.blocks@[0].id@ == "email"@,
            r.body.blocks@[1].id@ == "password"@,
    {
        let mut blocks: Vec<RequestBodyInput> = Vec::new();
        blocks.push(Self::new_email_block());
        blocks.push(Self::new_password_block());
        Self::new_modal(trigger_id, "Create User", blocks)
    }

    /// The wire text of this request: the canonical encoding of its
    /// JSON model.
    pub fn to_json(&self) -> (r: String)
        ensures
            r@ == enc_value(request_body_json(*self)),
    {
        let v = self.to_value();
        v.to_text()
    }

    /// The parsed-JSON form of this request.
    fn to_value(&self) -> (r: JsonValue)
        ensures
            r@ == request_body_json(*self),
    {
        let mut blocks: Vec<JsonValue> = Vec::new();
        let mut i: usize = 0;
        while i < self.body.blocks.len()
            invariant
                i <= self.body.blocks@.len(),
                blocks@.len() == i,
                forall|k: int|
                    0 <= k < i ==> blocks@[k]@ == input_json(self.body.blocks@[k]),
            decreases self.body.blocks@.len() - i,
        {
            let b = &self.body.blocks[i];
            let bv = JsonValue::Obj(
                obj4(
                    ("block_id", JsonValue::Str(chars_of(b.id.as_str()))),
                    ("type", JsonValue::Str(chars_of(b.content_type.as_str()))),
                    ("label", plain_text_value(&b.content)),
                    ("element", JsonValue::Obj(
                        obj3(
                            ("action_id", JsonValue::Str(chars_of(b.detail.id.as_str()))),
                            ("type", JsonValue::Str(chars_of(b.detail.content_type.as_str()))),
                            ("placeholder", plain_text_value(&b.detail.detail)),
                        ),
                    )),
                ),
            );
            proof {
                assert(bv@ == input_json(self.body.blocks@[i as int]));
            }
            blocks.push(bv);
            i = i + 1;
        }
        proof {
            assert(crate::json::arr_model(blocks@) =~= blocks_json(self.body.blocks@));
        }
        let data = JsonValue::Obj(
            obj5(
                ("type", JsonValue::Str(chars_of(self.body.view_type.as_str()))),
                ("title", plain_text_value(&self.body.title)),
                ("blocks", JsonValue::Arr(blocks)),
                ("submit", plain_text_value(&self.body.submit)),
                ("close", plain_text_value(&self.body.close)),
            ),
        );
        JsonValue::Obj(
            obj2(
                ("trigger_id", JsonValue::Str(chars_of(self.trigger_id.as_str()))),
                ("view", data),
            ),
        )
    }
}

fn plain_text_value(p: &RequestBodyPlainText) -> (r: JsonValue)
    ensures
        r@ == plain_text_json(*p),
{
    JsonValue::Obj(
        obj2(
            ("type", JsonValue::Str(chars_of(p.content_type.as_str()))),
            ("text", JsonValue::Str(chars_of(p.content.as_str()))),
        ),
    )
}

fn obj2(a: (&str, JsonValue), b: (&str, JsonValue)) -> (r: Vec<(Vec<char>, JsonValue)>)
    ensures
        crate::json::obj_model(r@) == seq![(a.0@, a.1@), (b.0@, b.1@)],
{
    let mut r: Vec<(Vec<char>, JsonValue)> = Vec::new();
    r.push((chars_of(a.0), a.1));
    r.push((chars_of(b.0), b.1));
    proof {
        assert(crate::json::obj_model(r@) =~= seq![(a.0@, a.1@), (b.0@, b.1@)]);
    }
    r
}

fn obj3(a: (&str, JsonValue), b: (&str, JsonValue), c: (&str, JsonValue)) -> (r: Vec<
    (Vec<char>, JsonValue),
>)
    ensures
        crate::json::obj_model(r@) == seq![(a.0@, a.1@), (b.0@, b.1@), (c.0@, c.1@)],
{
    let mut r: Vec<(Vec<char>, JsonValue)> = Vec::new();
    r.push((chars_of(a.0), a.1));
    r.push((chars_of(b.0), b.1));
    r.push((chars_of(c.0), c.1));
    proof {
        assert(crate::json::obj_model(r@) =~= seq![(a.0@, a.1@), (b.0@, b.1@), (c.0@, c.1@)]);
    }
    r
}

fn obj4(a: (&str, JsonValue), b: (&str, JsonValue), c: (&str, JsonValue), d: (&str, JsonValue))
    -> (r: Vec<(Vec<char>, JsonValue)>)
    ensures
        crate::json::obj_model(r@) == seq![(a.0@, a.1@), (b.0@, b.1@), (c.0@, c.1@), (d.0@, d.1@)],
{
    let mut r: Vec<(Vec<char>, JsonValue)> = Vec::new();
    r.push((chars_of(a.0), a.1));
    r.push((chars_of(b.0), b.1));
    r.push((chars_of(c.0), c.1));
    r.push((chars_of(d.0), d.1));
    proof {
        assert(crate::json::obj_model(r@) =~= seq![
            (a.0@, a.1@),
            (b.0@, b.1@),
            (c.0@, c.1@),
            (d.0@, d.1@),
        ]);
    }
    r
}

fn obj5(
    a: (&str, JsonValue),
    b: (&str, JsonValue),
    c: (&str, JsonValue),
    d: (&str, JsonValue),
    e: (&str, JsonValue),
) -> (r: Vec<(Vec<char>, JsonValue)>)
    ensures
        crate::json::obj_model(r@) == seq![
            (a.0@, a.1@),
            (b.0@, b.1@),
            (c.0@, c.1@),
            (d.0@, d.1@),
            (e.0@, e.1@),
        ],
{
    let mut r: Vec<(Vec<char>, JsonValue)> = Vec::new();
    r.push((chars_of(a.0), a.1));
    r.push((chars_of(b.0), b.1));
    r.push((chars_of(c.0), c.1));
    r.push((chars_of(d.0), d.1));
    r.push((chars_of(e.0), e.1));
    proof {
        assert(crate::json::obj_model(r@) =~= seq![
            (a.0@, a.1@),
            (b.0@, b.1@),
            (c.0@, c.1@),
            (d.0@, d.1@),
            (e.0@, e.1@),
        ]);
    }
    r
}

// ------------------------------------------------------------------
// Judging the platform's response.
// ------------------------------------------------------------------

/// The payload of a successful dialog submission.
#[derive(Debug)]
pub struct ResponseBodySucceedPayload {
    pub id: String,
    pub callback_id: String,
}

/// Why the dialog submission yielded no payload.
#[derive(Debug)]
pub enum ModalError {
    /// The platform answered with its failure shape; carries its
    /// message.
    Failed { message: String },
    /// The response matched neither the failure nor the success shape.
    UnparsableResponse,
}

/// The failure shape: an `ok` flag of any boolean value beside an
/// `error_message` string.
pub open spec fn failed_response_model(m: JsonModel) -> Option<Seq<char>> {
    match m.field("ok"@) {
        Some(JsonModel::Bool(_)) => field_str(m, "error_message"@),
        _ => None,
    }
}

/// The success shape: an `ok` flag beside a `view` carrying the ids.
pub open spec fn succeed_response_model(m: JsonModel) -> Option<(Seq<char>, Seq<char>)> {
    match m.field("ok"@) {
        Some(JsonModel::Bool(_)) => match m.field("view"@) {
            Some(w) => if field_str(w, "id"@) is Some && field_str(w, "callback_id"@) is Some {
                Some((field_str(w, "id"@).unwrap(), field_str(w, "callback_id"@).unwrap()))
            } else {
                None
            },
            None => None,
        },
        _ => None,
    }
}

/// What judging a response body yields: the failure shape wins when it
/// matches, then the success shape; anything else is unparsable.
pub open spec fn modal_response_model(s: Seq<char>) -> Result<(Seq<char>, Seq<char>), Option<
    Seq<char>,
>> {
    match sp_json(s) {
        Some(m) => match failed_response_model(m) {
            Some(msg) => Err(Some(msg)),
            None => match succeed_response_model(m) {
                Some(ids) => Ok(ids),
                None => Err(None),
            },
        },
        None => Err(None),
    }
}

/// Judges the response body of a dialog submission: the platform's
/// failure shape yields its message, the success shape yields the view
/// id and callback id, and anything else is unparsable.
pub fn decide_modal_response(body: &str) -> (r: Result<ResponseBodySucceedPayload, ModalError>)
    ensures
        match r {
            Ok(p) => modal_response_model(body@) == Ok::<_, Option<Seq<char>>>(
                (p.id@, p.callback_id@),
            ),
            Err(ModalError::Failed { message }) => modal_response_model(body@) == Err::<
                (Seq<char>, Seq<char>),
                _,
            >(Some(message@)),
            Err(ModalError::UnparsableResponse) => modal_response_model(body@) == Err::<
                (Seq<char>, Seq<char>),
                _,
            >(None::<Seq<char>>),
        },
{
    let v = match crate::json::parse_json(body) {
        Some(v) => v,
        None => {
            return Err(ModalError::UnparsableResponse);
        },
    };
    let ok_flag = match v.get("ok") {
        Some(f) => match f {
            JsonValue::Bool(_) => true,
            _ => false,
        },
        None => false,
    };
    if !ok_flag {
        return Err(ModalError::UnparsableResponse);
    }
    match v.get("error_message") {
        Some(msg) => match msg.str_value() {
            Some(message) => {
                return Err(ModalError::Failed { message });
            },
            None => (),
        },
        None => (),
    }
    let w = match v.get("view") {
        Some(w) => w,
        None => {
            return Err(ModalError::UnparsableResponse);
        },
    };
    let id = match w.get("id") {
        Some(f) => match f.str_value() {
            Some(t) => t,
            None => {
                return Err(ModalError::UnparsableResponse);
            },
        },
        None => {
            return Err(ModalError::UnparsableResponse);
        },
    };
    let callback_id = match w.get("callback_id") {
        Some(f) => match f.str_value() {
            Some(t) => t,
            None => {
                return Err(ModalError::UnparsableResponse);
            },
        },
        None => {
            return Err(ModalError::UnparsableResponse);
        },
    };
    Ok(ResponseBodySucceedPayload { id, callback_id })
}

} // verus!
