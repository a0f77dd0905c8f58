//! The receive stage: classify one inbound chat event into zero or more
//! tasks, each paired with the metadata of the message that caused it.
//!
//! A text message that starts with the configured prefix is parsed as a
//! command line; the privileged word-search commands are dropped unless they
//! come from the authorized sender. A plain message greets back when it
//! contains the standalone word "hi" (after ASCII case folding) and mentions
//! the bot by name. Everything else produces no task.

use vstd::prelude::*;
use vstd::string::StrSliceExecFns;
use vstd::string::StringExecFns;

use crate::msg::BuiltInCommand;
use crate::msg::BuiltInModel;
use crate::msg::ImplicitTask;
use crate::msg::Metadata;
use crate::msg::MetaModel;
use crate::msg::Task;
use crate::msg::TaskModel;
use crate::msg::task_pairs_view;
use crate::parse::ast::Command;
use crate::parse::ast::CommandModel;
use crate::parse::ast::QuoteModel;
use crate::parse::ast::SearchModel;
use crate::parse::parse_spec;
use crate::text::contains_seq;
use crate::text::has_word;
use crate::text::lower_seq;

verus! {

/// One inbound chat event, as the wire-level client hands it over: a text
/// message, a server notice, or anything else.
pub enum ChatEvent {
    /// A text message in a channel.
    Message { id: String, channel: String, sender: String, text: String },
    /// A server notice, with its optional notice identifier.
    Notice { message_id: Option<String>, text: String },
    /// Any other event; the pipeline ignores these.
    Other,
}

/// The mathematical value of a [`ChatEvent`].
pub enum EventModel {
    Message { id: Seq<char>, channel: Seq<char>, sender: Seq<char>, text: Seq<char> },
    Notice { message_id: Option<Seq<char>>, text: Seq<char> },
    Other,
}

impl View for ChatEvent {
    type V = EventModel;

    open spec fn view(&self) -> EventModel {
        match *self {
            ChatEvent::Message { id, channel, sender, text } => EventModel::Message {
                id: id@,
                channel: channel@,
                sender: sender@,
                text: text@,
            },
            ChatEvent::Notice { message_id, text } => EventModel::Notice {
                message_id: crate::msg::option_view(message_id),
                text: text@,
            },
            ChatEvent::Other => EventModel::Other,
        }
    }
}

/// A notice is error-class when its identifier starts with `msg_`.
pub open spec fn spec_error_notice(message_id: Option<Seq<char>>) -> bool {
    match message_id {
        Option::Some(id) => id.len() >= 4 && id.subrange(0, 4) == "msg_"@,
        Option::None => false,
    }
}

/// Whether a notice identifier marks an error-class notice, which the caller
/// should log before dropping the event.
pub fn is_error_notice(message_id: &Option<String>) -> (r: bool)
    ensures
        r == spec_error_notice(crate::msg::option_view(*message_id)),
{
    match message_id {
        Some(id) => {
            let n = id.as_str().unicode_len();
            if n >= 4 {
                let head = id.as_str().substring_char(0, 4);
                crate::text::str_eq(head, "msg_")
            } else {
                false
            }
        },
        None => false,
    }
}

/// The implicit-greeting heuristic: the case-folded text contains the
/// standalone word "hi" and mentions `@<name>`.
pub open spec fn spec_greeting(text: Seq<char>, name: Seq<char>) -> bool {
    has_word(lower_seq(text), "hi"@) && contains_seq(lower_seq(text), seq!['@'] + name)
}

/// The help variant of the task model that a parsed help request maps to.
pub open spec fn help_task(h: crate::parse::ast::Help) -> crate::msg::Help {
    match h {
        crate::parse::ast::Help::General => crate::msg::Help::General,
        crate::parse::ast::Help::Quote => crate::msg::Help::Quote,
    }
}

/// The tasks a parsed command line gives rise to: one task per command, with
/// the privileged word-search commands gated to the authorized sender.
pub open spec fn spec_command_tasks(
    cmd: CommandModel,
    meta: MetaModel,
    authorized: Seq<char>,
) -> Seq<(TaskModel, MetaModel)> {
    match cmd {
        CommandModel::Quote(QuoteModel::Add { username, key, text }) => seq![
            (TaskModel::BuiltIn(BuiltInModel::AddQuote { username, key, text }), meta),
        ],
        CommandModel::Quote(QuoteModel::Get { key }) => seq![
            (TaskModel::BuiltIn(BuiltInModel::GetQuote { key }), meta),
        ],
        CommandModel::Quote(QuoteModel::Random) => seq![
            (TaskModel::BuiltIn(BuiltInModel::RandomQuote), meta),
        ],
        CommandModel::Help(h) => seq![(TaskModel::Help(help_task(h)), meta)],
        CommandModel::Meta { trigger, response } => seq![
            (TaskModel::BuiltIn(BuiltInModel::AddCommand { trigger, response }), meta),
        ],
        CommandModel::Search(SearchModel::Search) => if meta.sender == authorized {
            seq![(TaskModel::BuiltIn(BuiltInModel::WordSearch), meta)]
        } else {
            Seq::empty()
        },
        CommandModel::Search(SearchModel::Lower { word, distance }) => if meta.sender
            == authorized {
            seq![(TaskModel::BuiltIn(BuiltInModel::WordLower { word, distance }), meta)]
        } else {
            Seq::empty()
        },
        CommandModel::Search(SearchModel::Upper { word, distance }) => if meta.sender
            == authorized {
            seq![(TaskModel::BuiltIn(BuiltInModel::WordUpper { word, distance }), meta)]
        } else {
            Seq::empty()
        },
        CommandModel::Search(SearchModel::Found) => if meta.sender == authorized {
            seq![(TaskModel::BuiltIn(BuiltInModel::WordFound), meta)]
        } else {
            Seq::empty()
        },
        CommandModel::PotentialUser { trigger } => seq![
            (TaskModel::Command { command: trigger }, meta),
        ],
    }
}

/// The tasks one inbound event gives rise to. Notices and non-text events
/// produce none; a prefixed message produces its command's tasks (none when
/// the command line does not parse); an unprefixed message produces a
/// greeting task exactly when the greeting heuristic fires.
pub open spec fn spec_classify(
    prefix: char,
    name: Seq<char>,
    authorized: Seq<char>,
    event: EventModel,
) -> Seq<(TaskModel, MetaModel)> {
    match event {
        EventModel::Message { id, channel, sender, text } => {
            let meta = MetaModel { id, channel, sender };
            if text.len() > 0 && text[0] == prefix {
                match parse_spec(text.subrange(1, text.len() as int)) {
                    Option::Some(cmd) => spec_command_tasks(cmd, meta, authorized),
                    Option::None => Seq::empty(),
                }
            } else if spec_greeting(text, name) {
                seq![(TaskModel::Implicit(ImplicitTask::Greet), meta)]
            } else {
                Seq::empty()
            }
        },
        _ => Seq::empty(),
    }
}

/// The receive stage's configuration: the command prefix, the bot's own name
/// (for the greeting heuristic), and the sender allowed to use the privileged
/// word-search commands.
pub struct ReceiveHandler {
    pub prefix: char,
    pub twitch_name: String,
    pub authorized_sender: String,
}

impl ReceiveHandler {
    /// Classify one inbound event into the tasks it gives rise to.
    pub fn handle_message(&self, event: ChatEvent) -> (r: Vec<(Task, Metadata)>)
        ensures
            task_pairs_view(r@) == spec_classify(
                self.prefix,
                self.twitch_name@,
                self.authorized_sender@,
                event@,
            ),
    {
        let ghost ev = event@;
        match event {
            ChatEvent::Message { id, channel, sender, text } => {
                let meta = Metadata { id, channel, sender };
                let n = text.as_str().unicode_len();
                if n > 0 && text.as_str().get_char(0) == self.prefix {
                    let rest = text.as_str().substring_char(1, n);
                    match crate::parse::parse(rest) {
                        Some(cmd) => self.command_tasks(cmd, meta),
                        None => {
                            let r: Vec<(Task, Metadata)> = Vec::new();
                            proof {
                                assert(task_pairs_view(r@) =~= Seq::<(TaskModel, MetaModel)>::empty());
                            }
                            r
                        },
                    }
                } else {
                    let lowered = crate::text::lower_str(text.as_str());
                    let mut needle = String::new();
                    needle.push('@');
                    needle.append(self.twitch_name.as_str());
                    proof {
                        assert(needle@ =~= seq!['@'] + self.twitch_name@);
                        reveal_strlit("hi");
                    }
                    if crate::text::str_has_word(lowered.as_str(), "hi") && crate::text::str_contains(
                        lowered.as_str(),
                        needle.as_str(),
                    ) {
                        let r = vec![(Task::Implicit(ImplicitTask::Greet), meta)];
                        proof {
                            assert(task_pairs_view(r@) =~= spec_classify(
                                self.prefix,
                                self.twitch_name@,
                                self.authorized_sender@,
                                ev,
                            ));
                        }
                        r
                    } else {
                        let r: Vec<(Task, Metadata)> = Vec::new();
                        proof {
                            assert(task_pairs_view(r@) =~= Seq::<(TaskModel, MetaModel)>::empty());
                        }
                        r
                    }
                }
            },
            ChatEvent::Notice { message_id, text } => {
                let r: Vec<(Task, Metadata)> = Vec::new();
                proof {
                    assert(task_pairs_view(r@) =~= Seq::<(TaskModel, MetaModel)>::empty());
                }
                r
            },
            ChatEvent::Other => {
                let r: Vec<(Task, Metadata)> = Vec::new();
                proof {
                    assert(task_pairs_view(r@) =~= Seq::<(TaskModel, MetaModel)>::empty());
                }
                r
            },
        }
    }

    /// The tasks of one parsed command, gated to the authorized sender for
    /// the privileged word-search commands.
    fn command_tasks(&self, cmd: Command, meta: Metadata) -> (r: Vec<(Task, Metadata)>)
        ensures
            task_pairs_view(r@) == spec_command_tasks(cmd@, meta@, self.authorized_sender@),
    {
        let ghost cm = cmd@;
        let ghost mm = meta@;
        match cmd {
            Command::Quote(crate::parse::ast::Quote::Add { username, key, text }) => {
                let r = vec![
                    (Task::BuiltIn(BuiltInCommand::AddQuote { username, key, text }), meta),
                ];
                proof {
                    assert(task_pairs_view(r@) =~= spec_command_tasks(cm, mm, self.authorized_sender@));
                }
                r
            },
            Command::Quote(crate::parse::ast::Quote::Get { key }) => {
                let r = vec![(Task::BuiltIn(BuiltInCommand::GetQuote { key }), meta)];
                proof {
                    assert(task_pairs_view(r@) =~= spec_command_tasks(cm, mm, self.authorized_sender@));
                }
                r
            },
            Command::Quote(crate::parse::ast::Quote::Random) => {
                let r = vec![(Task::BuiltIn(BuiltInCommand::RandomQuote), meta)];
                proof {
                    assert(task_pairs_view(r@) =~= spec_command_tasks(cm, mm, self.authorized_sender@));
                }
                r
            },
            Command::Help(h) => {
                let ht = match h {
                    crate::parse::ast::Help::General => crate::msg::Help::General,
                    crate::parse::ast::Help::Quote => crate::msg::Help::Quote,
                };
                let r = vec![(Task::Help(ht), meta)];
                proof {
                    assert(task_pairs_view(r@) =~= spec_command_tasks(cm, mm, self.authorized_sender@));
                }
                r
            },
            Command::Meta(m) => {
                let r = vec![
                    (
                        Task::BuiltIn(
                            BuiltInCommand::AddCommand { trigger: m.trigger, response: m.response },
                        ),
                        meta,
                    ),
                ];
                proof {
                    assert(task_pairs_view(r@) =~= spec_command_tasks(cm, mm, self.authorized_sender@));
                }
                r
            },
            Command::Search(s) => {
                if crate::text::str_eq(meta.sender.as_str(), self.authorized_sender.as_str()) {
                    let task = match s {
                        crate::parse::ast::Search::Search => Task::BuiltIn(
                            BuiltInCommand::WordSearch,
                        ),
                        crate::parse::ast::Search::Lower { word, distance } => Task::BuiltIn(
                            BuiltInCommand::WordLower { word, distance },
                        ),
                        crate::parse::ast::Search::Upper { word, distance } => Task::BuiltIn(
                            BuiltInCommand::WordUpper { word, distance },
                        ),
                        crate::parse::ast::Search::Found => Task::BuiltIn(
                            BuiltInCommand::WordFound,
                        ),
                    };
                    let r = vec![(task, meta)];
                    proof {
                        assert(task_pairs_view(r@) =~= spec_command_tasks(
                            cm,
                            mm,
                            self.authorized_sender@,
                        ));
                    }
                    r
                } else {
                    let r: Vec<(Task, Metadata)> = Vec::new();
                    proof {
                        assert(task_pairs_view(r@) =~= spec_command_tasks(
                            cm,
                            mm,
                            self.authorized_sender@,
                        ));
                    }
                    r
                }
            },
            Command::PotentialUser(p) => {
                let r = vec![(Task::Command { command: p.trigger }, meta)];
                proof {
                    assert(task_pairs_view(r@) =~= spec_command_tasks(cm, mm, self.authorized_sender@));
                }
                r
            },
        }
    }
}

} // verus!
