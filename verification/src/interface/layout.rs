//! Windows as plain values: their size bounds, their elements, their class.
use vstd::prelude::*;

use crate::input::UserEvent;

verus! {

/// A length of the interface.
#[derive(Clone, Copy, PartialEq, Eq, Debug, Structural)]
pub enum Dimension {
    /// A fixed number of pixels.
    Absolute(u32),
    /// A percentage of the space available.
    Relative(u32),
    /// All the space that the elements before it left.
    Remaining,
    /// As much as the content needs.
    Flexible,
}

/// The length of an element with its optional limits.
#[derive(Clone, Copy, PartialEq, Eq, Debug, Structural)]
pub struct DimensionBound {
    pub size: Dimension,
    pub minimum_size: Option<Dimension>,
    pub maximum_size: Option<Dimension>,
}

/// The width and height of a window with their optional limits.
#[derive(Clone, Copy, PartialEq, Eq, Debug, Structural)]
pub struct SizeBound {
    pub width: Dimension,
    pub minimum_width: Option<Dimension>,
    pub maximum_width: Option<Dimension>,
    pub height: Dimension,
    pub minimum_height: Option<Dimension>,
    pub maximum_height: Option<Dimension>,
}

/// An element of a window.
#[derive(Debug)]
pub enum Element {
    /// A line of text; `^rrggbb` sequences in it switch the color.
    Text { text: String },
    /// A button that raises `event` when pressed.
    Button { text: String, event: UserEvent, width_bound: DimensionBound },
}

/// An element as plain values.
pub enum ElementView {
    Text { text: Seq<char> },
    Button { text: Seq<char>, event: UserEvent, width_bound: DimensionBound },
}

impl View for Element {
    type V = ElementView;

    open spec fn view(&self) -> ElementView {
        match self {
            Element::Text { text } => ElementView::Text { text: text@ },
            Element::Button { text, event, width_bound } => ElementView::Button {
                text: text@,
                event: *event,
                width_bound: *width_bound,
            },
        }
    }
}

/// A window ready to be laid out: its title, the class by which it can be
/// closed, its size bound and its elements from top to bottom.
#[derive(Debug)]
pub struct WindowDescription {
    pub title: String,
    pub class: Option<String>,
    pub size_bound: SizeBound,
    pub elements: Vec<Element>,
}

/// A window as plain values.
pub struct WindowView {
    pub title: Seq<char>,
    pub class: Option<Seq<char>>,
    pub size_bound: SizeBound,
    pub elements: Seq<ElementView>,
}

impl View for WindowDescription {
    type V = WindowView;

    open spec fn view(&self) -> WindowView {
        WindowView {
            title: self.title@,
            class: match self.class {
                Some(class) => Some(class@),
                None => None,
            },
            size_bound: self.size_bound,
            elements: self.elements@.map_values(|element: Element| element@),
        }
    }
}

/// Something that can be opened as a window.
pub trait PrototypeWindow {
    /// The class under which at most one such window may be open at a time.
    /// Without one, any number of such windows may be open together.
    fn window_class(&self) -> (class: Option<&'static str>)
        default_ensures
            class is None,
    {
        None
    }

    /// The window to open.
    fn to_window(&self) -> WindowDescription;
}

} // verus!
