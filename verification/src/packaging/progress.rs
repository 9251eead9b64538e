//! The progress of generating packages, as messages to show.
use vstd::prelude::*;
use std::collections::VecDeque;
use vstd::string::StringExecFns;
use crate::deferred::message::{DeferredTaskMessage, deferred_task_text};

verus! {

/// A message on the progress of generating packages, or on why it could not go on.
#[derive(Debug, Clone)]
pub enum ProgressMessage {
    BeganProducingIconsAndGeneratingPackages {
        app_name_lowercase: String,
        target_packages_directory_path: String,
    },
    WrittenExecutable { executable_path: String, is_main: bool },
    FinishedProducingIconsAndGeneratingPackages {
        app_name_lowercase: String,
        target_packages_directory_path: String,
    },
    DefferedTask(DeferredTaskMessage),
    NotAllFieldsAreFilled,
    ExecutablePathDoesNotPointToAFile,
    SourceIconPathDoesNotPointToAFile,
    TargetDirectoryPathIsNotADirectory,
    OtherError(String),
    /// Empty message
    Nop,
}

impl From<DeferredTaskMessage> for ProgressMessage {
    fn from(value: DeferredTaskMessage) -> (r: ProgressMessage) {
        ProgressMessage::DefferedTask(value)
    }
}

impl vstd::std_specs::convert::FromSpecImpl<DeferredTaskMessage> for ProgressMessage {
    open spec fn obeys_from_spec() -> bool {
        true
    }

    open spec fn from_spec(value: DeferredTaskMessage) -> ProgressMessage {
        ProgressMessage::DefferedTask(value)
    }
}

impl ProgressMessage {
    /// Generating packages for the app has begun, into the directory.
    pub fn began_production(app_name_lowercase: String, target_packages_directory_path: String) -> (r:
        ProgressMessage)
        ensures
            r == (ProgressMessage::BeganProducingIconsAndGeneratingPackages {
                app_name_lowercase,
                target_packages_directory_path,
            }),
    {
        ProgressMessage::BeganProducingIconsAndGeneratingPackages {
            app_name_lowercase,
            target_packages_directory_path,
        }
    }

    /// An executable, the main one or another, has been written at the path.
    pub fn written_executable(executable_path: String, is_main: bool) -> (r: ProgressMessage)
        ensures
            r == (ProgressMessage::WrittenExecutable { executable_path, is_main }),
    {
        ProgressMessage::WrittenExecutable { executable_path, is_main }
    }

    /// Generating packages for the app has finished, into the directory.
    pub fn finished(app_name_lowercase: String, target_packages_directory_path: String) -> (r:
        ProgressMessage)
        ensures
            r == (ProgressMessage::FinishedProducingIconsAndGeneratingPackages {
                app_name_lowercase,
                target_packages_directory_path,
            }),
    {
        ProgressMessage::FinishedProducingIconsAndGeneratingPackages {
            app_name_lowercase,
            target_packages_directory_path,
        }
    }

    /// Replace this message by a newer one.
    pub fn set(&mut self, new_progress_message: ProgressMessage)
        ensures
            *final(self) == new_progress_message,
    {
        *self = new_progress_message;
    }
}

/// Progress messages in the order in which they were sent: the first sent is the first
/// taken.
pub struct ProgressMessageQueue {
    messages: VecDeque<ProgressMessage>,
}

impl ProgressMessageQueue {
    /// The messages waiting, the next to take first.
    pub closed spec fn view(&self) -> Seq<ProgressMessage> {
        self.messages@
    }

    /// No message waits.
    pub fn new() -> (r: ProgressMessageQueue)
        ensures
            r.view() == Seq::<ProgressMessage>::empty(),
    {
        ProgressMessageQueue { messages: VecDeque::new() }
    }

    /// Send a message: it waits after the others.
    pub fn push_message(&mut self, message: ProgressMessage)
        ensures
            final(self).view() == old(self).view().push(message),
    {
        self.messages.push_back(message);
    }

    /// Take the message that has waited longest, if any.
    pub fn next_message(&mut self) -> (r: Option<ProgressMessage>)
        ensures
            old(self).view().len() == 0 ==> r is None && final(self).view() == old(self).view(),
            old(self).view().len() > 0 ==> r == Some(old(self).view()[0]) && final(self).view()
                == old(self).view().drop_first(),
    {
        self.messages.pop_front()
    }

    /// Send more messages, in their order, after those waiting.
    pub fn append_more_messages(&mut self, more_messages: Vec<ProgressMessage>)
        ensures
            final(self).view() == old(self).view() + more_messages@,
    {
        let mut more = more_messages;
        let mut rest: VecDeque<ProgressMessage> = VecDeque::new();
        while more.len() > 0
            invariant
                more@ + rest@ == more_messages@,
            decreases more@.len(),
        {
            let message = more.pop().unwrap();
            rest.push_front(message);
            proof {
                assert(more@ + rest@ =~= more_messages@);
            }
        }
        proof {
            assert(rest@ =~= more_messages@);
        }
        self.messages.append(&mut rest);
    }

    /// Some message waits.
    pub fn has_messages(&self) -> (r: bool)
        ensures
            r == (self.view().len() > 0),
    {
        self.messages.len() > 0
    }
}

/// The text of a progress message.
pub open spec fn progress_text(m: ProgressMessage) -> Seq<char> {
    match m {
        ProgressMessage::BeganProducingIconsAndGeneratingPackages {
            app_name_lowercase,
            target_packages_directory_path,
        } => "Began producing icons and generating packages for app "@ + app_name_lowercase@
            + ". Placing in "@ + target_packages_directory_path@ + "."@,
        ProgressMessage::WrittenExecutable { executable_path, is_main } => "Written "@ + (if is_main {
            "main"@
        } else {
            "secondary"@
        }) + " executable file for the app at "@ + executable_path@,
        ProgressMessage::FinishedProducingIconsAndGeneratingPackages {
            app_name_lowercase,
            target_packages_directory_path,
        } => "Finished producing packages for app: "@ + app_name_lowercase@ + ".. Placed in "@
            + target_packages_directory_path@ + "."@,
        ProgressMessage::DefferedTask(message) => deferred_task_text(message),
        ProgressMessage::NotAllFieldsAreFilled =>
            "Can't generate packages. Not all of the needed fields are populated."@,
        ProgressMessage::ExecutablePathDoesNotPointToAFile =>
            "Can't generated packages. Executable path does not point to a file."@,
        ProgressMessage::SourceIconPathDoesNotPointToAFile =>
            "Can't generated packages. Source icon path does not point to a file."@,
        ProgressMessage::TargetDirectoryPathIsNotADirectory =>
            "Can't generated packages. Target directory path is not a directory."@,
        ProgressMessage::OtherError(error) => error@,
        ProgressMessage::Nop => Seq::empty(),
    }
}

impl ProgressMessage {
    /// The message as text for people to read; nothing for the empty message.
    pub fn text(&self) -> (r: String)
        ensures
            r@ == progress_text(*self),
    {
        match self {
            ProgressMessage::BeganProducingIconsAndGeneratingPackages {
                app_name_lowercase,
                target_packages_directory_path,
            } => {
                let mut t = String::from_str(
                    "Began producing icons and generating packages for app ",
                );
                t.append(app_name_lowercase.as_str());
                t.append(". Placing in ");
                t.append(target_packages_directory_path.as_str());
                t.append(".");
                t
            },
            ProgressMessage::WrittenExecutable { executable_path, is_main } => {
                let mut t = String::from_str("Written ");
                t.append(
                    if *is_main {
                        "main"
                    } else {
                        "secondary"
                    },
                );
                t.append(" executable file for the app at ");
                t.append(executable_path.as_str());
                t
            },
            ProgressMessage::FinishedProducingIconsAndGeneratingPackages {
                app_name_lowercase,
                target_packages_directory_path,
            } => {
                let mut t = String::from_str("Finished producing packages for app: ");
                t.append(app_name_lowercase.as_str());
                t.append(".. Placed in ");
                t.append(target_packages_directory_path.as_str());
                t.append(".");
                t
            },
            ProgressMessage::DefferedTask(message) => message.text(),
            ProgressMessage::NotAllFieldsAreFilled => String::from_str(
                "Can't generate packages. Not all of the needed fields are populated.",
            ),
            ProgressMessage::ExecutablePathDoesNotPointToAFile => String::from_str(
                "Can't generated packages. Executable path does not point to a file.",
            ),
            ProgressMessage::SourceIconPathDoesNotPointToAFile => String::from_str(
                "Can't generated packages. Source icon path does not point to a file.",
            ),
            ProgressMessage::TargetDirectoryPathIsNotADirectory => String::from_str(
                "Can't generated packages. Target directory path is not a directory.",
            ),
            ProgressMessage::OtherError(error) => error.clone(),
            ProgressMessage::Nop => String::new(),
        }
    }
}

} // verus!
