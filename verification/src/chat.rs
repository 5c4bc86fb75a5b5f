//! Chat formats, what the client announces about them, and how a chat message
//! is shown.

use vstd::prelude::*;

use crate::text;

verus! {

/// The name of the format in which a message is CommonMark text.
pub const COMMONMARK: &'static str = "commonmark";

/// The name of the format in which a message is made of styled components.
pub const COMPONENTS: &'static str = "components";

/// The name of the format that is in use.
pub open spec fn name_of_format(use_components: bool) -> Seq<char> {
    if use_components {
        COMPONENTS@
    } else {
        COMMONMARK@
    }
}

/// A format in which a chat message can come.
#[derive(Debug, Clone, Copy, PartialEq, Eq, Structural)]
pub enum ChatFormat {
    CommonMark,
    Components,
    Unknown,
}

/// The format that a name stands for.
pub open spec fn format_called(name: Seq<char>) -> ChatFormat {
    if name == COMMONMARK@ {
        ChatFormat::CommonMark
    } else if name == COMPONENTS@ {
        ChatFormat::Components
    } else {
        ChatFormat::Unknown
    }
}

/// The formats that the client tells the server about.
#[derive(Debug)]
pub struct Capabilities {
    pub supported_formats: Vec<String>,
    pub preferred_format: Option<String>,
}

/// The mathematical content of [`Capabilities`].
pub struct CapabilitiesModel {
    pub supported_formats: Seq<Seq<char>>,
    pub preferred_format: Option<Seq<char>>,
}

impl View for Capabilities {
    type V = CapabilitiesModel;

    open spec fn view(&self) -> CapabilitiesModel {
        CapabilitiesModel {
            supported_formats: text::texts(self.supported_formats@),
            preferred_format: text::opt_text(self.preferred_format),
        }
    }
}

/// What is announced: both formats are supported, components first, and the
/// one in use is preferred.
pub open spec fn announced(use_components: bool) -> CapabilitiesModel {
    CapabilitiesModel {
        supported_formats: seq![COMPONENTS@, COMMONMARK@],
        preferred_format: Some(name_of_format(use_components)),
    }
}

/// The content of a chat message, in each way in which it can be shown.
#[derive(Debug)]
pub struct MessageContent {
    /// The text as it was sent, if it was sent as CommonMark.
    pub commonmark: Option<String>,
    /// The text without any styling.
    pub plain_text: String,
    /// The text with its styling as terminal escape sequences.
    pub ansi: String,
}

/// The mathematical content of a [`MessageContent`].
pub struct ContentModel {
    pub commonmark: Option<Seq<char>>,
    pub plain_text: Seq<char>,
    pub ansi: Seq<char>,
}

impl View for MessageContent {
    type V = ContentModel;

    open spec fn view(&self) -> ContentModel {
        ContentModel {
            commonmark: text::opt_text(self.commonmark),
            plain_text: self.plain_text@,
            ansi: self.ansi@,
        }
    }
}

/// What is shown of a chat message: CommonMark text as it was sent, components
/// with their styling, and anything else as plain text.
pub open spec fn shown(format: Seq<char>, content: ContentModel) -> Seq<char> {
    match format_called(format) {
        ChatFormat::CommonMark => match content.commonmark {
            Some(sent) => sent,
            None => content.plain_text,
        },
        ChatFormat::Components => content.ansi,
        ChatFormat::Unknown => content.plain_text,
    }
}

/// The two formats have different names.
pub proof fn law_format_names_differ()
    ensures
        COMMONMARK@ != COMPONENTS@,
{
    reveal_strlit("commonmark");
    reveal_strlit("components");
    assert(COMMONMARK@[3] != COMPONENTS@[3]);
}

/// Each of the two names stands for its own format.
pub proof fn law_announced_formats_are_known()
    ensures
        format_called(COMMONMARK@) == ChatFormat::CommonMark,
        format_called(COMPONENTS@) == ChatFormat::Components,
{
    law_format_names_differ();
}

/// The preferred format is one of the supported formats, and it changes with
/// the choice that is made.
pub proof fn law_preferred_format_is_supported(use_components: bool)
    ensures
        announced(use_components).preferred_format is Some,
        announced(use_components).supported_formats.contains(
            announced(use_components).preferred_format->0,
        ),
        announced(use_components).preferred_format != announced(!use_components).preferred_format,
        announced(use_components).supported_formats == announced(!use_components).supported_formats,
{
    law_format_names_differ();
    let supported = announced(use_components).supported_formats;
    assert(supported[0] == COMPONENTS@);
    assert(supported[1] == COMMONMARK@);
}

/// A message in a format that is not known is shown as plain text.
pub proof fn law_unknown_format_shows_plain_text(format: Seq<char>, content: ContentModel)
    requires
        format != COMMONMARK@,
        format != COMPONENTS@,
    ensures
        shown(format, content) == content.plain_text,
{
}

/// The content of what is announced is all that is announced.
pub proof fn law_capabilities_content(c: Capabilities)
    ensures
        c@.supported_formats.len() == c.supported_formats@.len(),
        forall|i: int|
            0 <= i < c.supported_formats@.len() ==> #[trigger] c@.supported_formats[i]
                == c.supported_formats@[i]@,
        match c.preferred_format {
            Some(name) => c@.preferred_format == Some(name@),
            None => c@.preferred_format is None,
        },
{
}

/// The content of a message is its three texts.
pub proof fn law_message_content(content: MessageContent)
    ensures
        content@.plain_text == content.plain_text@,
        content@.ansi == content.ansi@,
        match content.commonmark {
            Some(sent) => content@.commonmark == Some(sent@),
            None => content@.commonmark is None,
        },
{
}

/// A name stands for a format exactly if it is the name of that format, letter
/// for letter.
pub proof fn law_formats_go_by_their_names(name: Seq<char>)
    ensures
        format_called(name) == ChatFormat::CommonMark <==> name == "commonmark"@,
        format_called(name) == ChatFormat::Components <==> name == "components"@,
{
    law_format_names_differ();
}

/// The name of the format in use stands for components exactly if they are in
/// use, and else for CommonMark.
pub proof fn law_format_in_use_is_named(use_components: bool)
    ensures
        name_of_format(use_components) == "components"@ <==> use_components,
        name_of_format(use_components) == "commonmark"@ <==> !use_components,
{
    law_format_names_differ();
}

/// Components and CommonMark are announced as supported, in this order and
/// nothing else, and the one that was chosen is preferred.
pub proof fn law_both_formats_are_announced(use_components: bool)
    ensures
        announced(use_components).supported_formats == seq!["components"@, "commonmark"@],
        announced(use_components).preferred_format == Some("components"@) <==> use_components,
        announced(use_components).preferred_format == Some("commonmark"@) <==> !use_components,
{
    law_format_names_differ();
}

/// A message that was sent as CommonMark, in that format, is shown as exactly
/// the text that was sent, whatever its other texts are.
pub proof fn law_commonmark_is_shown_as_sent(
    sent: Seq<char>,
    plain_text: Seq<char>,
    ansi: Seq<char>,
)
    ensures
        shown("commonmark"@, ContentModel { commonmark: Some(sent), plain_text, ansi }) == sent,
{
}

/// A message in the format CommonMark that was not sent as CommonMark is shown
/// as exactly its plain text.
pub proof fn law_other_content_is_shown_plain(plain_text: Seq<char>, ansi: Seq<char>)
    ensures
        shown("commonmark"@, ContentModel { commonmark: None, plain_text, ansi }) == plain_text,
{
}

/// A message in the format of components is shown as exactly its text with
/// styling, whatever its other texts are.
pub proof fn law_components_are_shown_with_styling(content: ContentModel)
    ensures
        shown("components"@, content) == content.ansi,
{
    law_format_names_differ();
}

/// The name of the format that is in use.
pub fn format_name(use_components: bool) -> (name: &'static str)
    ensures
        name@ == name_of_format(use_components),
{
    if use_components {
        COMPONENTS
    } else {
        COMMONMARK
    }
}

/// What the client announces once it is authenticated.
pub fn capabilities(use_components: bool) -> (c: Capabilities)
    ensures
        c@ == announced(use_components),
{
    let mut supported_formats: Vec<String> = Vec::new();
    supported_formats.push(COMPONENTS.to_string());
    supported_formats.push(COMMONMARK.to_string());
    assert(text::texts(supported_formats@) =~= seq![COMPONENTS@, COMMONMARK@]);
    Capabilities {
        supported_formats,
        preferred_format: Some(format_name(use_components).to_string()),
    }
}

/// The format that a name stands for.
pub fn chat_format(name: &str) -> (format: ChatFormat)
    ensures
        format == format_called(name@),
{
    if text::same_text(name, COMMONMARK) {
        ChatFormat::CommonMark
    } else if text::same_text(name, COMPONENTS) {
        ChatFormat::Components
    } else {
        ChatFormat::Unknown
    }
}

/// The text that is shown of a chat message.
pub fn format_chat_message(format: &str, content: &MessageContent) -> (s: String)
    ensures
        s@ == shown(format@, content@),
{
    match chat_format(format) {
        ChatFormat::CommonMark => match text::copy_opt(&content.commonmark) {
            Some(sent) => sent,
            None => content.plain_text.clone(),
        },
        ChatFormat::Components => content.ansi.clone(),
        ChatFormat::Unknown => content.plain_text.clone(),
    }
}

} // verus!
