//! The registers that keep deleted and yanked text.
use vstd::prelude::*;
use super::mode::VisualMode;

verus! {

/// Access to a clipboard of text.
pub trait Clipboard {
    /// The text on the clipboard, if any.
    fn get_string(&mut self) -> Option<String>;

    /// Put text on the clipboard.
    fn put_string(&mut self, s: &str);
}

/// Text kept in a register, with the mode in which it was selected.
#[derive(Clone, Default)]
pub struct RegisterData {
    pub content: String,
    pub mode: VisualMode,
}

/// The registers: the unnamed one holds the text of the latest delete or yank, and the last
/// yank the text of the latest yank.
#[derive(Clone, Default)]
pub struct Register {
    pub unnamed: RegisterData,
    last_yank: RegisterData,
}

/// How text came into the registers.
pub enum RegisterKind {
    Delete,
    Yank,
}

impl Register {
    /// The text of the latest delete or yank.
    pub closed spec fn spec_unnamed(&self) -> RegisterData {
        self.unnamed
    }

    /// The text of the latest yank.
    pub closed spec fn spec_last_yank(&self) -> RegisterData {
        self.last_yank
    }

    /// Keep deleted or yanked text.
    pub fn add(&mut self, kind: RegisterKind, data: RegisterData)
        ensures
            final(self).spec_unnamed() == data,
            final(self).spec_last_yank() == (match kind {
                RegisterKind::Delete => old(self).spec_last_yank(),
                RegisterKind::Yank => data,
            }),
    {
        match kind {
            RegisterKind::Delete => self.add_delete(data),
            RegisterKind::Yank => self.add_yank(data),
        }
    }

    /// Keep deleted text: it goes to the unnamed register alone.
    pub fn add_delete(&mut self, data: RegisterData)
        ensures
            final(self).spec_unnamed() == data,
            final(self).spec_last_yank() == old(self).spec_last_yank(),
    {
        self.unnamed = data;
    }

    /// Keep yanked text: it goes to the unnamed register and to the last yank.
    pub fn add_yank(&mut self, data: RegisterData)
        ensures
            final(self).spec_unnamed() == data,
            final(self).spec_last_yank() == data,
    {
        self.unnamed = RegisterData { content: data.content.clone(), mode: data.mode };
        self.last_yank = data;
    }
}

} // verus!
