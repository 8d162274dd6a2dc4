//! What the bot does with an inbound message: which text it answers with,
//! or which task it puts in the queue.

use vstd::prelude::*;
use crate::options::ActionOptions;
use crate::queue::{MessageRef, Task};
use crate::text::{chars_of, push_all, string_of, trim, trimmed};

verus! {

/// A command of the bot, with its arguments already read.
#[derive(Debug)]
pub enum BotCommand {
    Help,
    Start,
    About,
    ListExtractors,
    ListDownloaders,
    ListFixers,
    ListActions,
    Ping,
    /// Run the fixers in these places on the message.
    Fix(Vec<usize>),
    /// Run the action in this place, with these options, on the message.
    Act(usize, ActionOptions),
}

/// What is shown of a provider in a list.
#[derive(Debug)]
pub struct ProviderInfo {
    pub name: String,
    pub description: String,
    pub enabled_by_default: bool,
}

/// What the bot knows when it answers: the help text of its commands, what
/// is configured about itself and its owner, and the available providers
/// of each kind.
#[derive(Debug)]
pub struct BotContext {
    pub help: String,
    pub about: Option<String>,
    pub owner_link: Option<String>,
    pub extractors: Vec<ProviderInfo>,
    pub downloaders: Vec<ProviderInfo>,
    pub fixers: Vec<ProviderInfo>,
    pub actions: Vec<ProviderInfo>,
}

/// What the bot does with a message.
#[derive(Debug)]
pub enum Reaction {
    /// Answer with `text`; `link_preview` says whether links in it may be
    /// shown with a preview.
    Reply { text: String, link_preview: bool },
    /// Show `notice` on the status message, then put `task` in the queue.
    Enqueue { notice: String, task: Task },
}

/// The name under which a conversation is logged: the user name behind an
/// `@` where there is one, else the title, else the first name and, behind
/// a space, the last name, as far as they are known.
pub open spec fn display_name(
    username: Option<Seq<char>>,
    title: Option<Seq<char>>,
    first_name: Option<Seq<char>>,
    last_name: Option<Seq<char>>,
) -> Seq<char> {
    match username {
        Some(u) => seq!['@'] + u,
        None => match title {
            Some(t) => t,
            None => {
                let first = match first_name {
                    Some(f) => f,
                    None => Seq::empty(),
                };
                match last_name {
                    Some(l) => first + seq![' '] + l,
                    None => first,
                }
            },
        },
    }
}

/// The text of an optional `str`.
pub open spec fn str_text(s: Option<&str>) -> Option<Seq<char>> {
    match s {
        Some(t) => Some(t@),
        None => None,
    }
}

/// The name under which a conversation is logged.
pub fn chat_display_name(
    username: Option<&str>,
    title: Option<&str>,
    first_name: Option<&str>,
    last_name: Option<&str>,
) -> (name: String)
    ensures
        name@ == display_name(
            str_text(username),
            str_text(title),
            str_text(first_name),
            str_text(last_name),
        ),
{
    match username {
        Some(u) => {
            let mut out: Vec<char> = Vec::new();
            out.push('@');
            push_all(&mut out, &chars_of(u));
            assert(out@ == seq!['@'] + u@);
            string_of(&out)
        },
        None => match title {
            Some(t) => string_of(&chars_of(t)),
            None => {
                let mut out: Vec<char> = match first_name {
                    Some(f) => chars_of(f),
                    None => Vec::new(),
                };
                match last_name {
                    Some(l) => {
                        out.push(' ');
                        push_all(&mut out, &chars_of(l));
                    },
                    None => {},
                }
                string_of(&out)
            },
        },
    }
}

/// The text of a message: its text, else its caption, else nothing.
pub fn message_text(text: Option<&str>, caption: Option<&str>) -> (out: String)
    ensures
        out@ == match text {
            Some(t) => t@,
            None => match caption {
                Some(c) => c@,
                None => Seq::empty(),
            },
        },
{
    match text {
        Some(t) => string_of(&chars_of(t)),
        None => match caption {
            Some(c) => string_of(&chars_of(c)),
            None => string_of(&Vec::new()),
        },
    }
}

/// The answer to `start`.
pub open spec fn start_text() -> Seq<char> {
    "Hello! I'm a bot that can help download your memes.\n\nJust send me a link to a funny video and I'll do the rest!\nYou can also just send or forward a message with media and links to me and I'll fix it up for you!\n\nIf you'd like to know more use the /help or /about commands."@
}

/// What is shown on the status message of a task that has been accepted.
pub open spec fn queued_text() -> Seq<char> {
    "Message queued. Waiting for spot in line..."@
}

/// The first paragraphs of the usual text of the bot about itself.
pub open spec fn about_paragraphs() -> Seq<char> {
    "This bot is a part of the <a href=\"https://github.com/Allypost/downloader-hub/\">Downloader Hub project</a>. It's a bot that helps you download your memes\n\nIt is powered by Rust, yt-dlp, ffmpeg, and some external services.\n\nThe source code is available at\nhttps://github.com/Allypost/downloader-hub/tree/main/crates/downloader-telegram-bot\n\nYou can find out about the available downloaders and fixers, and what they do by using the /list_extractors, /list_downloaders and /list_fixers commands.\n\nNo data about downloading/users is stored outside of logs that live in RAM"@
}

/// The text of the bot about itself, before white space is taken off its
/// ends: the configured text where there is one, else the usual
/// paragraphs, and after them one on the owner where a link is configured.
pub open spec fn about_source(about: Option<Seq<char>>, owner_link: Option<Seq<char>>) -> Seq<char> {
    match about {
        Some(text) => text,
        None => match owner_link {
            Some(link) => about_paragraphs() + "\n\nThis bot instance is ran by <a href=\""@ + link
                + "\">this user</a>."@,
            None => about_paragraphs(),
        },
    }
}

/// The answer to `about`.
pub open spec fn about_text(about: Option<Seq<char>>, owner_link: Option<Seq<char>>) -> Seq<char> {
    trimmed(about_source(about, owner_link))
}

/// The text of an optional string.
pub open spec fn string_text(s: Option<String>) -> Option<Seq<char>> {
    match s {
        Some(t) => Some(t@),
        None => None,
    }
}

fn about(configured: &Option<String>, owner_link: &Option<String>) -> (out: Vec<char>)
    ensures
        out@ == about_text(string_text(*configured), string_text(*owner_link)),
{
    let source = match configured {
        Some(text) => chars_of(text.as_str()),
        None => {
            let mut out = chars_of(
                "This bot is a part of the <a href=\"https://github.com/Allypost/downloader-hub/\">Downloader Hub project</a>. It's a bot that helps you download your memes\n\nIt is powered by Rust, yt-dlp, ffmpeg, and some external services.\n\nThe source code is available at\nhttps://github.com/Allypost/downloader-hub/tree/main/crates/downloader-telegram-bot\n\nYou can find out about the available downloaders and fixers, and what they do by using the /list_extractors, /list_downloaders and /list_fixers commands.\n\nNo data about downloading/users is stored outside of logs that live in RAM",
            );
            match owner_link {
                Some(link) => {
                    push_all(&mut out, &chars_of("\n\nThis bot instance is ran by <a href=\""));
                    push_all(&mut out, &chars_of(link.as_str()));
                    push_all(&mut out, &chars_of("\">this user</a>."));
                },
                None => {},
            }
            out
        },
    };
    trim(&source)
}

/// One provider as it stands in a list: a star where `starred` says so,
/// then the name, underlined, and below it the description.
pub open spec fn list_entry(name: Seq<char>, description: Seq<char>, starred: bool) -> Seq<char> {
    "<blockquote>"@ + (if starred {
        seq!['*']
    } else {
        Seq::empty()
    }) + "<u>"@ + name + "</u>\n"@ + description + "</blockquote>"@
}

/// Whether the provider `p` is starred in a list in which those are
/// starred that are not enabled by default.
pub open spec fn is_starred(p: ProviderInfo, star_disabled: bool) -> bool {
    star_disabled && !p.enabled_by_default
}

/// The first `n` providers as they stand in a list, one below the other.
pub open spec fn list_entries(providers: Seq<ProviderInfo>, star_disabled: bool, n: int) -> Seq<char>
    decreases n,
{
    if n <= 0 {
        Seq::empty()
    } else {
        let p = providers[n - 1];
        let entry = list_entry(p.name@, p.description@, is_starred(p, star_disabled));
        if n == 1 {
            entry
        } else {
            list_entries(providers, star_disabled, n - 1) + seq!['\n'] + entry
        }
    }
}

/// A list of providers: the words before it, then the providers.
pub open spec fn list_text(intro: Seq<char>, providers: Seq<ProviderInfo>, star_disabled: bool) -> Seq<
    char,
> {
    intro + list_entries(providers, star_disabled, providers.len() as int)
}

fn list(intro: &str, providers: &Vec<ProviderInfo>, star_disabled: bool) -> (out: Vec<char>)
    ensures
        out@ == list_text(intro@, providers@, star_disabled),
{
    let mut entries: Vec<char> = Vec::new();
    let mut i: usize = 0;
    while i < providers.len()
        invariant
            i <= providers.len(),
            entries@ == list_entries(providers@, star_disabled, i as int),
        decreases providers.len() - i,
    {
        let p = &providers[i];
        if i > 0 {
            entries.push('\n');
        }
        let ghost before = entries@;
        push_all(&mut entries, &chars_of("<blockquote>"));
        if star_disabled && !p.enabled_by_default {
            entries.push('*');
        }
        push_all(&mut entries, &chars_of("<u>"));
        push_all(&mut entries, &chars_of(p.name.as_str()));
        push_all(&mut entries, &chars_of("</u>\n"));
        push_all(&mut entries, &chars_of(p.description.as_str()));
        push_all(&mut entries, &chars_of("</blockquote>"));
        proof {
            assert(entries@ == before + list_entry(
                p.name@,
                p.description@,
                is_starred(*p, star_disabled),
            ));
        }
        i += 1;
    }
    let mut out = chars_of(intro);
    push_all(&mut out, &entries);
    out
}

/// The words before the list of extractors.
pub open spec fn extractors_intro() -> Seq<char> {
    "Extractors are used to get info about links. That info can then be passed to the downloaders who actually download the content.\n\nAvailable extractors:\n"@
}

/// The words before the list of downloaders.
pub open spec fn downloaders_intro() -> Seq<char> {
    "Downloaders are the things that actually download the content. They need to be given the exact info about what and how to download, which they get from extractors.\n\nAvailable downloaders:\n"@
}

/// The words before the list of fixers.
pub open spec fn fixers_intro() -> Seq<char> {
    "Fixers are used to fix up the content somewhere on disk in various ways.\n\nAvailable fixers:\n"@
}

/// The words before the list of actions.
pub open spec fn actions_intro() -> Seq<char> {
    "Actions are used to do something with the content.\n\nAvailable actions:\n"@
}

/// The words below the list of fixers.
pub open spec fn fixers_footnote() -> Seq<char> {
    "\n\n* Not enabled by default"@
}

/// Whether `reaction` is the answer `text`, with or without preview of
/// links.
pub open spec fn is_reply(reaction: Reaction, text: Seq<char>, link_preview: bool) -> bool {
    reaction matches Reaction::Reply { text: t, link_preview: p } && t@ == text && p == link_preview
}

/// Whether `reaction` puts `task` in the queue, behind the usual notice.
pub open spec fn is_enqueue(reaction: Reaction, task: Task) -> bool {
    reaction matches Reaction::Enqueue { notice, task: t } && notice@ == queued_text() && t == task
}

/// Whether `reaction` is what `command` calls for, on the message `origin`
/// with the status message `status`.
pub open spec fn is_reaction_to(
    reaction: Reaction,
    origin: MessageRef,
    status: MessageRef,
    command: BotCommand,
    context: BotContext,
) -> bool {
    match command {
        BotCommand::Help => is_reply(reaction, context.help@, true),
        BotCommand::Start => is_reply(reaction, start_text(), true),
        BotCommand::About => is_reply(
            reaction,
            about_text(string_text(context.about), string_text(context.owner_link)),
            false,
        ),
        BotCommand::ListExtractors => is_reply(
            reaction,
            list_text(extractors_intro(), context.extractors@, false),
            true,
        ),
        BotCommand::ListDownloaders => is_reply(
            reaction,
            list_text(downloaders_intro(), context.downloaders@, false),
            true,
        ),
        BotCommand::ListFixers => is_reply(
            reaction,
            list_text(fixers_intro(), context.fixers@, true) + fixers_footnote(),
            true,
        ),
        BotCommand::ListActions => is_reply(
            reaction,
            list_text(actions_intro(), context.actions@, false),
            true,
        ),
        BotCommand::Ping => is_reply(reaction, "Pong!"@, true),
        BotCommand::Fix(fixers) => is_enqueue(reaction, Task::FixRequest { origin, fixers, status }),
        BotCommand::Act(action, options) => is_enqueue(
            reaction,
            Task::ActionRequest { origin, action, options, status },
        ),
    }
}

fn reply(text: &Vec<char>) -> (reaction: Reaction)
    ensures
        is_reply(reaction, text@, true),
{
    Reaction::Reply { text: string_of(text), link_preview: true }
}

fn enqueue(task: Task) -> (reaction: Reaction)
    ensures
        is_enqueue(reaction, task),
{
    Reaction::Enqueue {
        notice: string_of(&chars_of("Message queued. Waiting for spot in line...")),
        task,
    }
}

/// Decides what the bot does with a command. The commands that ask for
/// information are answered with a text; `fix` and `act` put a task in the
/// queue.
pub fn handle_command(
    origin: MessageRef,
    status: MessageRef,
    command: BotCommand,
    context: &BotContext,
) -> (reaction: Reaction)
    ensures
        is_reaction_to(reaction, origin, status, command, *context),
{
    match command {
        BotCommand::Help => reply(&chars_of(context.help.as_str())),
        BotCommand::Start => reply(
            &chars_of(
                "Hello! I'm a bot that can help download your memes.\n\nJust send me a link to a funny video and I'll do the rest!\nYou can also just send or forward a message with media and links to me and I'll fix it up for you!\n\nIf you'd like to know more use the /help or /about commands.",
            ),
        ),
        BotCommand::About => Reaction::Reply {
            text: string_of(&about(&context.about, &context.owner_link)),
            link_preview: false,
        },
        BotCommand::ListExtractors => reply(
            &list(
                "Extractors are used to get info about links. That info can then be passed to the downloaders who actually download the content.\n\nAvailable extractors:\n",
                &context.extractors,
                false,
            ),
        ),
        BotCommand::ListDownloaders => reply(
            &list(
                "Downloaders are the things that actually download the content. They need to be given the exact info about what and how to download, which they get from extractors.\n\nAvailable downloaders:\n",
                &context.downloaders,
                false,
            ),
        ),
        BotCommand::ListFixers => {
            let mut text = list(
                "Fixers are used to fix up the content somewhere on disk in various ways.\n\nAvailable fixers:\n",
                &context.fixers,
                true,
            );
            push_all(&mut text, &chars_of("\n\n* Not enabled by default"));
            reply(&text)
        },
        BotCommand::ListActions => reply(
            &list(
                "Actions are used to do something with the content.\n\nAvailable actions:\n",
                &context.actions,
                false,
            ),
        ),
        BotCommand::Ping => reply(&chars_of("Pong!")),
        BotCommand::Fix(fixers) => enqueue(Task::fix_request(origin, fixers, status)),
        BotCommand::Act(action, options) => enqueue(
            Task::action_request(origin, action, options, status),
        ),
    }
}

/// Decides what the bot does with a message that is no command: it puts a
/// task in the queue that fetches what the message refers to.
pub fn handle_message(origin: MessageRef, status: MessageRef) -> (reaction: Reaction)
    ensures
        is_enqueue(reaction, Task::DownloadRequest { origin, status }),
{
    enqueue(Task::download_request(origin, status))
}

} // verus!
