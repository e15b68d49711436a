//! Translation of an ordered conversation from the inbound message schema
//! (roles: user, system, assistant) into the upstream schema (roles: user,
//! model).
//!
//! The upstream schema has no system role, so a system message becomes a
//! user-role message and is immediately followed by a synthetic empty
//! model-role message, which keeps the alternating-turn structure that some
//! upstream endpoints require. Content is copied verbatim, order is kept,
//! and translation never fails, on the empty conversation included.

use vstd::prelude::*;

verus! {

/// Roles of the inbound (source-schema) chat messages.
#[derive(Clone, Copy, PartialEq, Eq, Structural, Debug)]
pub enum OpenAIMessageRoles {
    User,
    System,
    Assistant,
}

/// Roles of the upstream (target-schema) chat messages.
#[derive(Clone, Copy, PartialEq, Eq, Structural, Debug)]
pub enum GeminiMessageRoles {
    User,
    Model,
}

impl OpenAIMessageRoles {
    /// The role's wire name, as it appears in the inbound JSON schema.
    pub open spec fn spec_wire_name(self) -> Seq<char> {
        match self {
            OpenAIMessageRoles::User => "user"@,
            OpenAIMessageRoles::System => "system"@,
            OpenAIMessageRoles::Assistant => "assistant"@,
        }
    }

    /// The role's wire name, as it appears in the inbound JSON schema.
    pub fn wire_name(&self) -> (r: String)
        ensures
            r@ == self.spec_wire_name(),
    {
        match self {
            OpenAIMessageRoles::User => "user".to_owned(),
            OpenAIMessageRoles::System => "system".to_owned(),
            OpenAIMessageRoles::Assistant => "assistant".to_owned(),
        }
    }
}

impl GeminiMessageRoles {
    /// The role's wire name, as it appears in the upstream JSON schema.
    pub open spec fn spec_wire_name(self) -> Seq<char> {
        match self {
            GeminiMessageRoles::User => "user"@,
            GeminiMessageRoles::Model => "model"@,
        }
    }

    /// The role's wire name, as it appears in the upstream JSON schema.
    pub fn wire_name(&self) -> (r: String)
        ensures
            r@ == self.spec_wire_name(),
    {
        match self {
            GeminiMessageRoles::User => "user".to_owned(),
            GeminiMessageRoles::Model => "model".to_owned(),
        }
    }
}

/// Spec-level model of an inbound message: its content and role.
pub struct OpenAIMessageView {
    pub content: Seq<char>,
    pub role: OpenAIMessageRoles,
}

/// Spec-level model of an upstream message: its content and role.
pub struct GeminiMessageView {
    pub content: Seq<char>,
    pub role: GeminiMessageRoles,
}

/// An inbound chat message.
#[derive(Clone, PartialEq, Debug)]
pub struct OpenAIMessage {
    pub content: String,
    pub role: OpenAIMessageRoles,
}

impl View for OpenAIMessage {
    type V = OpenAIMessageView;

    open spec fn view(&self) -> OpenAIMessageView {
        OpenAIMessageView { content: self.content@, role: self.role }
    }
}

impl DeepView for OpenAIMessage {
    type V = OpenAIMessageView;

    open spec fn deep_view(&self) -> OpenAIMessageView {
        self.view()
    }
}

/// An upstream chat message.
#[derive(Clone, PartialEq, Debug)]
pub struct GeminiMessage {
    pub content: String,
    pub role: GeminiMessageRoles,
}

impl View for GeminiMessage {
    type V = GeminiMessageView;

    open spec fn view(&self) -> GeminiMessageView {
        GeminiMessageView { content: self.content@, role: self.role }
    }
}

impl DeepView for GeminiMessage {
    type V = GeminiMessageView;

    open spec fn deep_view(&self) -> GeminiMessageView {
        self.view()
    }
}

/// The role conversion table: user and system map to user, assistant maps
/// to model.
pub open spec fn map_role(role: OpenAIMessageRoles) -> GeminiMessageRoles {
    match role {
        OpenAIMessageRoles::User => GeminiMessageRoles::User,
        OpenAIMessageRoles::System => GeminiMessageRoles::User,
        OpenAIMessageRoles::Assistant => GeminiMessageRoles::Model,
    }
}

/// The upstream message that one inbound message maps to: content copied
/// verbatim, role converted by the table.
pub open spec fn translated_head(m: OpenAIMessageView) -> GeminiMessageView {
    GeminiMessageView { content: m.content, role: map_role(m.role) }
}

/// The synthetic empty model-role message that follows each translated
/// system message.
pub open spec fn synthetic_model_message() -> GeminiMessageView {
    GeminiMessageView { content: Seq::empty(), role: GeminiMessageRoles::Model }
}

/// What one inbound message contributes to the translated conversation:
/// its own translation, followed by the synthetic model message when its
/// role is system.
pub open spec fn translate_message(m: OpenAIMessageView) -> Seq<GeminiMessageView> {
    if m.role is System {
        seq![translated_head(m), synthetic_model_message()]
    } else {
        seq![translated_head(m)]
    }
}

/// The translated conversation: each inbound message's contribution, in
/// the inbound order.
pub open spec fn translate_messages(s: Seq<OpenAIMessageView>) -> Seq<GeminiMessageView>
    decreases s.len(),
{
    if s.len() == 0 {
        Seq::empty()
    } else {
        translate_message(s[0]) + translate_messages(s.skip(1))
    }
}

/// How many messages of a conversation carry the system role.
pub open spec fn count_system(s: Seq<OpenAIMessageView>) -> nat
    decreases s.len(),
{
    if s.len() == 0 {
        0
    } else {
        (if s[0].role is System { 1nat } else { 0nat }) + count_system(s.skip(1))
    }
}

/// Where the translation of the inbound message at position `i` stands in
/// the translated conversation: shifted right once for every earlier
/// system message.
pub open spec fn translated_pos(s: Seq<OpenAIMessageView>, i: int) -> int {
    i + count_system(s.take(i))
}

impl GeminiMessage {
    /// Translates one inbound message: content copied verbatim, role
    /// converted by the table (user and system to user, assistant to
    /// model).
    pub fn from_openai_message(message: &OpenAIMessage) -> (r: Self)
        ensures
            r@ == translated_head(message@),
    {
        GeminiMessage {
            content: message.content.clone(),
            role: match &message.role {
                OpenAIMessageRoles::User => GeminiMessageRoles::User,
                OpenAIMessageRoles::System => GeminiMessageRoles::User,
                OpenAIMessageRoles::Assistant => GeminiMessageRoles::Model,
            },
        }
    }
}

/// Translates an ordered conversation into the upstream schema. Every
/// message is translated in order; each system message is followed by a
/// synthetic empty model message. Never fails, on the empty conversation
/// included, and the output is a function of the input alone.
pub fn convert_messages(messages: Vec<OpenAIMessage>) -> (r: Vec<GeminiMessage>)
    ensures
        r.deep_view() == translate_messages(messages.deep_view()),
{
    let ghost all = messages.deep_view();
    let mut gemini_messages: Vec<GeminiMessage> = Vec::new();
    let mut i: usize = 0;
    while i < messages.len()
        invariant
            i <= messages.len(),
            all == messages.deep_view(),
            all.len() == messages.len(),
            gemini_messages.deep_view() == translate_messages(all.take(i as int)),
        decreases messages.len() - i,
    {
        let message = &messages[i];
        gemini_messages.push(GeminiMessage::from_openai_message(message));

        if let OpenAIMessageRoles::System = &message.role {
            gemini_messages.push(GeminiMessage {
                content: "".to_owned(),
                role: GeminiMessageRoles::Model,
            });
            proof {
                reveal_strlit("");
                assert(""@ =~= Seq::<char>::empty());
            }
        }

        proof {
            assert(all.take(i as int + 1) =~= all.take(i as int).push(all[i as int]));
            lemma_translate_messages_push(all.take(i as int), all[i as int]);
            assert(gemini_messages.deep_view() =~= translate_messages(all.take(i as int + 1)));
        }
        i += 1;
    }
    proof {
        assert(all.take(messages.len() as int) =~= all);
    }
    gemini_messages
}

/// Translating a one-message conversation gives that message's
/// contribution alone.
pub proof fn lemma_translate_singleton(m: OpenAIMessageView)
    ensures
        translate_messages(seq![m]) == translate_message(m),
{
    reveal_with_fuel(translate_messages, 2);
    assert(seq![m].skip(1) =~= Seq::<OpenAIMessageView>::empty());
    assert(translate_messages(seq![m]) =~= translate_message(m));
}

/// Appending one message to a conversation appends its contribution to the
/// translation.
pub proof fn lemma_translate_messages_push(s: Seq<OpenAIMessageView>, m: OpenAIMessageView)
    ensures
        translate_messages(s.push(m)) == translate_messages(s) + translate_message(m),
{
    assert(s.push(m) =~= s + seq![m]);
    lemma_translate_messages_concat(s, seq![m]);
    lemma_translate_singleton(m);
}

/// Translation distributes over concatenation of conversations.
pub proof fn lemma_translate_messages_concat(a: Seq<OpenAIMessageView>, b: Seq<OpenAIMessageView>)
    ensures
        translate_messages(a + b) == translate_messages(a) + translate_messages(b),
    decreases a.len(),
{
    if a.len() == 0 {
        assert(a + b =~= b);
        assert(translate_messages(a) + translate_messages(b) =~= translate_messages(b));
    } else {
        assert((a + b).skip(1) =~= a.skip(1) + b);
        assert((a + b)[0] == a[0]);
        lemma_translate_messages_concat(a.skip(1), b);
        assert(translate_messages(a + b) =~= translate_messages(a) + translate_messages(b));
    }
}

/// The system count distributes over concatenation of conversations.
pub proof fn lemma_count_system_concat(a: Seq<OpenAIMessageView>, b: Seq<OpenAIMessageView>)
    ensures
        count_system(a + b) == count_system(a) + count_system(b),
    decreases a.len(),
{
    if a.len() == 0 {
        assert(a + b =~= b);
    } else {
        assert((a + b).skip(1) =~= a.skip(1) + b);
        assert((a + b)[0] == a[0]);
        lemma_count_system_concat(a.skip(1), b);
    }
}

/// Law: the translated conversation's length is the inbound length plus
/// the number of inbound system messages.
pub proof fn lemma_translate_len(s: Seq<OpenAIMessageView>)
    ensures
        translate_messages(s).len() == s.len() + count_system(s),
    decreases s.len(),
{
    if s.len() > 0 {
        lemma_translate_len(s.skip(1));
    }
}

/// Law: for every position of the inbound conversation, the message's
/// translation stands at its translated position, and, when the message is
/// a system one, the synthetic model message stands immediately after it.
pub proof fn lemma_translate_order(s: Seq<OpenAIMessageView>, i: int)
    requires
        0 <= i < s.len(),
    ensures
        translated_pos(s, i) + translate_message(s[i]).len() <= translate_messages(s).len(),
        translate_messages(s)[translated_pos(s, i)] == translated_head(s[i]),
        s[i].role is System ==> translate_messages(s)[translated_pos(s, i) + 1]
            == synthetic_model_message(),
{
    let front = s.take(i);
    let rest = s.skip(i);
    assert(s =~= front + rest);
    lemma_translate_messages_concat(front, rest);
    lemma_translate_len(front);
    assert(rest[0] == s[i]);
    assert(translate_messages(rest) == translate_message(s[i]) + translate_messages(rest.skip(1)));
    assert(translate_messages(front).len() == translated_pos(s, i));
    assert(translate_messages(s)[translated_pos(s, i)] == translate_messages(rest)[0]);
    assert(translate_messages(rest)[0] == translate_message(s[i])[0]);
    if s[i].role is System {
        assert(translate_messages(s)[translated_pos(s, i) + 1] == translate_messages(rest)[1]);
        assert(translate_messages(rest)[1] == translate_message(s[i])[1]);
    }
}

/// Law: translated positions keep the inbound order, so entries derived
/// from distinct inbound messages stand in the inbound messages' order.
pub proof fn lemma_translated_pos_increasing(s: Seq<OpenAIMessageView>, i: int, j: int)
    requires
        0 <= i <= j <= s.len(),
    ensures
        translated_pos(s, i) <= translated_pos(s, j),
        i < j ==> translated_pos(s, i) < translated_pos(s, j),
{
    assert(s.take(j) =~= s.take(i) + s.take(j).skip(i));
    lemma_count_system_concat(s.take(i), s.take(j).skip(i));
}

/// Law: the role conversion is total and follows the table: user and
/// system map to user, assistant maps to model, and nothing else comes
/// out.
pub proof fn lemma_role_mapping_table()
    ensures
        map_role(OpenAIMessageRoles::User) == GeminiMessageRoles::User,
        map_role(OpenAIMessageRoles::System) == GeminiMessageRoles::User,
        map_role(OpenAIMessageRoles::Assistant) == GeminiMessageRoles::Model,
        forall|role: OpenAIMessageRoles|
            map_role(role) == GeminiMessageRoles::User || map_role(role) == GeminiMessageRoles::Model,
{
    assert forall|role: OpenAIMessageRoles|
        map_role(role) == GeminiMessageRoles::User
            || map_role(role) == GeminiMessageRoles::Model by {
        match role {
            OpenAIMessageRoles::User => {},
            OpenAIMessageRoles::System => {},
            OpenAIMessageRoles::Assistant => {},
        }
    }
}

/// Law: a conversation without system messages translates one-to-one, in
/// order, to one of the same length; its entries are the per-message
/// translations, so only user and model roles come out.
pub proof fn lemma_translate_no_system(s: Seq<OpenAIMessageView>)
    requires
        count_system(s) == 0,
    ensures
        translate_messages(s).len() == s.len(),
        forall|i: int| 0 <= i < s.len() ==> translate_messages(s)[i] == translated_head(s[i]),
    decreases s.len(),
{
    lemma_translate_len(s);
    assert forall|i: int| 0 <= i < s.len() implies translate_messages(s)[i]
        == translated_head(s[i]) by {
        assert(s =~= s.take(i) + s.skip(i));
        lemma_count_system_concat(s.take(i), s.skip(i));
        assert(count_system(s.take(i)) == 0);
        assert(s.skip(i)[0] == s[i]);
        assert(!(s[i].role is System));
        lemma_translate_order(s, i);
        assert(translated_pos(s, i) == i);
    }
}

} // verus!
