//! The modes of selecting text.
use vstd::prelude::*;

verus! {

/// How a selection of text extends: by characters, by whole lines, or by a block of columns.
#[derive(Clone, Copy, Debug, PartialEq, Eq, Structural, Hash, Default)]
pub enum VisualMode {
    #[default]
    Normal,
    Linewise,
    Blockwise,
}

} // verus!
