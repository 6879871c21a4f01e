//! What the host hands to the registry and what the registry hands back: the
//! caller, the registry's own address, replies, responses and sub-requests.

use vstd::prelude::*;
use vstd::string::*;

verus! {

/// An amount of one currency.
#[derive(Clone, Debug, PartialEq, Eq)]
pub struct Coin {
    pub denom: String,
    pub amount: u128,
}

/// Where the registry itself lives.
#[derive(Clone, Debug, PartialEq, Eq)]
pub struct ContractInfo {
    pub address: String,
}

/// The surroundings of a call.
#[derive(Clone, Debug, PartialEq, Eq)]
pub struct Env {
    pub contract: ContractInfo,
}

/// Who makes a call, and with what funds.
#[derive(Clone, Debug, PartialEq, Eq)]
pub struct MessageInfo {
    pub sender: String,
    pub funds: Vec<Coin>,
}

/// A key with a value, attached to a response or to an event.
#[derive(Clone, Debug, PartialEq, Eq)]
pub struct Attribute {
    pub key: String,
    pub value: String,
}

impl View for Attribute {
    type V = (Seq<char>, Seq<char>);

    open spec fn view(&self) -> (Seq<char>, Seq<char>) {
        (self.key@, self.value@)
    }
}

/// The keys and values of a list of attributes.
pub open spec fn attributes_view(attributes: Seq<Attribute>) -> Seq<(Seq<char>, Seq<char>)> {
    attributes.map_values(|attribute: Attribute| attribute@)
}

/// The value of the first attribute of `attributes` whose key is `key`.
pub open spec fn attribute_value(attributes: Seq<Attribute>, key: Seq<char>) -> Option<Seq<char>>
    decreases attributes.len(),
{
    if attributes.len() == 0 {
        None
    } else if attributes[0].key@ == key {
        Some(attributes[0].value@)
    } else {
        attribute_value(attributes.drop_first(), key)
    }
}

/// Something that happened while the host ran a sub-request.
#[derive(Clone, Debug, PartialEq, Eq)]
pub struct Event {
    pub ty: String,
    pub attributes: Vec<Attribute>,
}

/// The value of the first attribute with the key `key` in the first event of
/// `events` that has such an attribute.
pub open spec fn event_attribute(events: Seq<Event>, key: Seq<char>) -> Option<Seq<char>>
    decreases events.len(),
{
    if events.len() == 0 {
        None
    } else {
        match attribute_value(events[0].attributes@, key) {
            Some(value) => Some(value),
            None => event_attribute(events.drop_first(), key),
        }
    }
}

/// The text of a string that may be absent.
pub open spec fn option_text(text: Option<String>) -> Option<Seq<char>> {
    match text {
        Some(text) => Some(text@),
        None => None,
    }
}

/// Looks `key` up among `attributes`.
pub fn find_attribute<'a>(attributes: &'a Vec<Attribute>, key: &String) -> (found: Option<
    &'a String,
>)
    ensures
        match found {
            Some(value) => attribute_value(attributes@, key@) == Some(value@),
            None => attribute_value(attributes@, key@) is None,
        },
{
    let mut i: usize = 0;
    assert(attributes@.skip(0) =~= attributes@);
    while i < attributes.len()
        invariant
            i <= attributes@.len(),
            attribute_value(attributes@, key@) == attribute_value(attributes@.skip(i as int), key@),
        decreases attributes@.len() - i,
    {
        assert(attributes@.skip(i as int).drop_first() =~= attributes@.skip(i + 1));
        if attributes[i].key == *key {
            return Some(&attributes[i].value);
        }
        i = i + 1;
    }
    None
}

/// Looks `key` up among the attributes of `events`.
pub fn find_event_attribute<'a>(events: &'a Vec<Event>, key: &String) -> (found: Option<
    &'a String,
>)
    ensures
        match found {
            Some(value) => event_attribute(events@, key@) == Some(value@),
            None => event_attribute(events@, key@) is None,
        },
{
    let mut i: usize = 0;
    assert(events@.skip(0) =~= events@);
    while i < events.len()
        invariant
            i <= events@.len(),
            event_attribute(events@, key@) == event_attribute(events@.skip(i as int), key@),
        decreases events@.len() - i,
    {
        assert(events@.skip(i as int).drop_first() =~= events@.skip(i + 1));
        match find_attribute(&events[i].attributes, key) {
            Some(value) => {
                return Some(value);
            },
            None => {},
        }
        i = i + 1;
    }
    None
}

/// What a sub-request that succeeded left behind.
#[derive(Clone, Debug, PartialEq, Eq)]
pub struct SubMsgResponse {
    pub events: Vec<Event>,
    pub data: Option<Vec<u8>>,
}

/// How a sub-request ended.
#[derive(Clone, Debug, PartialEq, Eq)]
pub enum SubMsgResult {
    /// The sub-request was carried out.
    Success(SubMsgResponse),
    /// The sub-request failed, for the reason given.
    Failure(String),
}

/// The host's answer to a sub-request, tagged with the id of that request.
#[derive(Clone, Debug, PartialEq, Eq)]
pub struct Reply {
    pub id: u64,
    pub result: SubMsgResult,
}

/// When the host is to answer a sub-request.
#[derive(Clone, Copy, Debug, PartialEq, Eq, Structural)]
pub enum ReplyOn {
    Always,
    Error,
    Success,
    Never,
}

/// A request to the host to instantiate a contract.
#[derive(Clone, Debug, PartialEq, Eq)]
pub struct InstantiateRequest {
    pub admin: Option<String>,
    pub code_id: u64,
    pub msg: Vec<u8>,
    pub funds: Vec<Coin>,
    pub label: String,
}

/// A request to instantiate a contract, as a mathematical value.
pub struct InstantiateRequestView {
    pub admin: Option<Seq<char>>,
    pub code_id: u64,
    pub msg: Seq<u8>,
    pub funds: Seq<Coin>,
    pub label: Seq<char>,
}

impl View for InstantiateRequest {
    type V = InstantiateRequestView;

    open spec fn view(&self) -> InstantiateRequestView {
        InstantiateRequestView {
            admin: match self.admin {
                Some(admin) => Some(admin@),
                None => None,
            },
            code_id: self.code_id,
            msg: self.msg@,
            funds: self.funds@,
            label: self.label@,
        }
    }
}

/// A sub-request: what the host is to do, the id that its answer will carry,
/// and when it is to answer.
#[derive(Clone, Debug, PartialEq, Eq)]
pub struct SubMsg {
    pub id: u64,
    pub msg: InstantiateRequest,
    pub reply_on: ReplyOn,
}

/// A sub-request, as a mathematical value.
pub struct SubMsgView {
    pub id: u64,
    pub msg: InstantiateRequestView,
    pub reply_on: ReplyOn,
}

impl View for SubMsg {
    type V = SubMsgView;

    open spec fn view(&self) -> SubMsgView {
        SubMsgView { id: self.id, msg: self.msg@, reply_on: self.reply_on }
    }
}

/// What an operation hands back to the host: attributes that describe what was
/// done, and the sub-requests to run.
#[derive(Clone, Debug, PartialEq, Eq)]
pub struct Response {
    pub messages: Vec<SubMsg>,
    pub attributes: Vec<Attribute>,
}

/// A response, as a mathematical value.
pub struct ResponseView {
    pub messages: Seq<SubMsgView>,
    pub attributes: Seq<(Seq<char>, Seq<char>)>,
}

impl View for Response {
    type V = ResponseView;

    open spec fn view(&self) -> ResponseView {
        ResponseView {
            messages: self.messages@.map_values(|message: SubMsg| message@),
            attributes: attributes_view(self.attributes@),
        }
    }
}

impl ResponseView {
    /// The response without attributes and sub-requests.
    pub open spec fn empty() -> ResponseView {
        ResponseView { messages: Seq::empty(), attributes: Seq::empty() }
    }

    /// This response with one more attribute.
    pub open spec fn with_attribute(self, key: Seq<char>, value: Seq<char>) -> ResponseView {
        ResponseView { messages: self.messages, attributes: self.attributes.push((key, value)) }
    }

    /// This response with one more sub-request.
    pub open spec fn with_submessage(self, message: SubMsgView) -> ResponseView {
        ResponseView { messages: self.messages.push(message), attributes: self.attributes }
    }
}

impl Response {
    /// A response without attributes and sub-requests.
    pub fn new() -> (response: Self)
        ensures
            response@ == ResponseView::empty(),
    {
        let response = Response { messages: Vec::new(), attributes: Vec::new() };
        assert(response@.messages =~= Seq::empty());
        assert(response@.attributes =~= Seq::empty());
        response
    }

    /// Adds an attribute after those that are there.
    pub fn add_attribute(self, key: &str, value: String) -> (response: Self)
        ensures
            response@ == self@.with_attribute(key@, value@),
    {
        let mut response = self;
        response.attributes.push(Attribute { key: String::from_str(key), value });
        assert(response@.attributes =~= self@.attributes.push((key@, value@)));
        assert(response@.messages =~= self@.messages);
        response
    }

    /// Adds a sub-request after those that are there.
    pub fn add_submessage(self, message: SubMsg) -> (response: Self)
        ensures
            response@ == self@.with_submessage(message@),
    {
        let mut response = self;
        response.messages.push(message);
        assert(response@.messages =~= self@.messages.push(message@));
        assert(response@.attributes =~= self@.attributes);
        response
    }
}

} // verus!
