//! Widget variants over non-null toolkit handles.
//!
//! Every widget instance is owned by the toolkit; this layer holds only an
//! opaque, non-null handle to it, together with a record of the geometry most
//! recently commanded through this layer.  A mutating method updates that
//! record and returns a command value: the handle and the already-translated
//! arguments for exactly one toolkit routine.  The unverified glue that
//! reaches the C side executes each command without inspecting or changing it.
//!
//! An axis of the record is `None` while this layer has not commanded it, and
//! again after an operation (relative alignment) that lets the toolkit move
//! the widget on its own.

use vstd::prelude::*;

use crate::align::align_code;
use crate::align::label_align_code;
use crate::align::LabelAlign;
use crate::align::ObjectAlign;

verus! {

/// The geometry this layer last commanded for one widget, axis by axis.
/// `None` means the toolkit's stored value is not known to this layer.
#[derive(Clone, Copy, Debug, PartialEq, Eq)]
pub struct Geometry {
    pub x: Option<i16>,
    pub y: Option<i16>,
    pub width: Option<i16>,
    pub height: Option<i16>,
}

/// The geometry record of a widget this layer has not positioned or sized.
pub open spec fn unknown_geometry() -> Geometry {
    Geometry { x: None, y: None, width: None, height: None }
}

/// The record after commanding the position (x, y): both size axes keep
/// their previous values.
pub open spec fn with_pos(g: Geometry, x: i16, y: i16) -> Geometry {
    Geometry { x: Some(x), y: Some(y), width: g.width, height: g.height }
}

/// The record after commanding the size (w, h): the position keeps its
/// previous value.
pub open spec fn with_size(g: Geometry, w: i16, h: i16) -> Geometry {
    Geometry { x: g.x, y: g.y, width: Some(w), height: Some(h) }
}

/// The record after commanding the width alone.
pub open spec fn with_width(g: Geometry, w: i16) -> Geometry {
    Geometry { x: g.x, y: g.y, width: Some(w), height: g.height }
}

/// The record after commanding the height alone.
pub open spec fn with_height(g: Geometry, h: i16) -> Geometry {
    Geometry { x: g.x, y: g.y, width: g.width, height: Some(h) }
}

/// The record after the toolkit repositioned the widget itself (relative
/// alignment): the commanded position is no longer known, the size is.
pub open spec fn with_unknown_pos(g: Geometry) -> Geometry {
    Geometry { x: None, y: None, width: g.width, height: g.height }
}

/// A single-axis setter writes one axis and reads nothing else; setting the
/// width never perturbs the height, nor the reverse, so the two setters
/// commute.
pub proof fn lemma_axis_setters_independent(g: Geometry, w: i16, h: i16)
    ensures
        with_width(g, w).height == g.height,
        with_width(g, w).x == g.x,
        with_width(g, w).y == g.y,
        with_height(g, h).width == g.width,
        with_height(g, h).x == g.x,
        with_height(g, h).y == g.y,
        with_height(with_width(g, w), h) == with_width(with_height(g, h), w),
{
}

/// Whatever was recorded before, a commanded position reads back exactly as
/// it was given.
pub proof fn lemma_pos_round_trip(g: Geometry, x: i16, y: i16)
    ensures
        with_pos(g, x, y).x == Some(x),
        with_pos(g, x, y).y == Some(y),
        with_pos(g, x, y).width == g.width,
        with_pos(g, x, y).height == g.height,
{
}

/// Arguments for one call of the toolkit's position setter.
#[derive(Clone, Copy, Debug, PartialEq, Eq)]
pub struct PosCommand {
    pub target: usize,
    pub x: i16,
    pub y: i16,
}

/// Arguments for one call of the toolkit's size setter.
#[derive(Clone, Copy, Debug, PartialEq, Eq)]
pub struct SizeCommand {
    pub target: usize,
    pub width: i16,
    pub height: i16,
}

/// Arguments for one call of the toolkit's width setter.
#[derive(Clone, Copy, Debug, PartialEq, Eq)]
pub struct WidthCommand {
    pub target: usize,
    pub width: i16,
}

/// Arguments for one call of the toolkit's height setter.
#[derive(Clone, Copy, Debug, PartialEq, Eq)]
pub struct HeightCommand {
    pub target: usize,
    pub height: i16,
}

/// Arguments for one call of the toolkit's relative-alignment routine:
/// the widget to move, the base it is aligned against, the alignment
/// constant, and the two pixel offsets applied afterwards.
#[derive(Clone, Copy, Debug, PartialEq, Eq)]
pub struct AlignCommand {
    pub target: usize,
    pub base: usize,
    pub code: u8,
    pub x_mod: i16,
    pub y_mod: i16,
}

/// Arguments for one call of the toolkit's label-text setter.  The text is
/// an owned copy taken at this boundary, so the toolkit call never depends
/// on the lifetime of the caller's buffer.
#[derive(Clone, Debug, PartialEq, Eq)]
pub struct TextCommand {
    pub target: usize,
    pub text: String,
}

/// Arguments for one call of the toolkit's label-justification setter.
#[derive(Clone, Copy, Debug, PartialEq, Eq)]
pub struct LabelAlignCommand {
    pub target: usize,
    pub code: u8,
}

/// A value that can stand for a live toolkit widget: it yields the widget's
/// non-null native handle.
pub trait Container {
    /// The native handle this value wraps.
    spec fn handle(&self) -> usize;

    /// The handle is non-null, as construction guarantees.
    spec fn wf(&self) -> bool;

    /// The native handle, for passing into toolkit calls.
    fn raw(&self) -> (r: usize)
        requires
            self.wf(),
        ensures
            r == self.handle(),
            r != 0,
    ;
}

/// A widget whose geometry can be commanded: position, size, and alignment
/// relative to another widget.
pub trait Object: Container {
    /// The geometry this layer last commanded for the widget.
    spec fn geom(&self) -> Geometry;

    /// The widget state that lies outside the geometry record (a label's
    /// text, for one); every geometry command leaves it untouched.
    type Rest;

    /// The part of the widget's model that geometry commands never change.
    spec fn rest(&self) -> Self::Rest;

    /// Command the widget's position.  The returned command carries the
    /// coordinates through to the toolkit unchanged.
    fn set_pos(&mut self, x: i16, y: i16) -> (cmd: PosCommand)
        requires
            old(self).wf(),
        ensures
            final(self).wf(),
            final(self).handle() == old(self).handle(),
            final(self).rest() == old(self).rest(),
            final(self).geom() == with_pos(old(self).geom(), x, y),
            cmd == (PosCommand { target: old(self).handle(), x, y }),
    ;

    /// Command the widget's size.  The returned command carries both extents
    /// through to the toolkit unchanged.
    fn set_size(&mut self, w: i16, h: i16) -> (cmd: SizeCommand)
        requires
            old(self).wf(),
        ensures
            final(self).wf(),
            final(self).handle() == old(self).handle(),
            final(self).rest() == old(self).rest(),
            final(self).geom() == with_size(old(self).geom(), w, h),
            cmd == (SizeCommand { target: old(self).handle(), width: w, height: h }),
    ;

    /// Command the widget's width alone.  The magnitude is narrowed to the
    /// toolkit's coordinate type with the toolkit's own truncating cast;
    /// values up to `i16::MAX` pass through unchanged, and avoiding larger
    /// ones is the caller's responsibility.
    fn set_width(&mut self, w: u32) -> (cmd: WidthCommand)
        requires
            old(self).wf(),
        ensures
            final(self).wf(),
            final(self).handle() == old(self).handle(),
            final(self).rest() == old(self).rest(),
            final(self).geom() == with_width(old(self).geom(), w as i16),
            cmd == (WidthCommand { target: old(self).handle(), width: w as i16 }),
            w <= i16::MAX ==> cmd.width == w as int,
    ;

    /// Command the widget's height alone; the narrowing is as for the width.
    fn set_height(&mut self, h: u32) -> (cmd: HeightCommand)
        requires
            old(self).wf(),
        ensures
            final(self).wf(),
            final(self).handle() == old(self).handle(),
            final(self).rest() == old(self).rest(),
            final(self).geom() == with_height(old(self).geom(), h as i16),
            cmd == (HeightCommand { target: old(self).handle(), height: h as i16 }),
            h <= i16::MAX ==> cmd.height == h as int,
    ;

    /// Command an alignment of this widget relative to `base`: the selector
    /// becomes its toolkit constant, the pixel offsets are narrowed to the
    /// toolkit's coordinate type (in-range values pass through unchanged),
    /// and the toolkit then repositions the widget itself, so the commanded
    /// position is no longer known to this layer.
    fn set_object_align<C: Container>(
        &mut self,
        base: &mut C,
        align: ObjectAlign,
        x_mod: i32,
        y_mod: i32,
    ) -> (cmd: AlignCommand)
        requires
            old(self).wf(),
            old(base).wf(),
        ensures
            final(self).wf(),
            final(self).handle() == old(self).handle(),
            final(self).rest() == old(self).rest(),
            final(self).geom() == with_unknown_pos(old(self).geom()),
            *final(base) == *old(base),
            cmd == (AlignCommand {
                target: old(self).handle(),
                base: old(base).handle(),
                code: align_code(align),
                x_mod: x_mod as i16,
                y_mod: y_mod as i16,
            }),
            i16::MIN <= x_mod <= i16::MAX ==> cmd.x_mod == x_mod as int,
            i16::MIN <= y_mod <= i16::MAX ==> cmd.y_mod == y_mod as int,
    ;

    /// The geometry record, for reading an axis back.
    fn geometry(&self) -> (g: Geometry)
        ensures
            g == self.geom(),
    ;
}

/// The base capability bundle: a non-null handle and the geometry record.
/// It carries no widget-specific behaviour; the concrete variants embed one
/// and forward to it.
pub struct ObjectX {
    raw: usize,
    model: Geometry,
}

impl ObjectX {
    /// Wrap the handle a toolkit creation call returned.  A null handle
    /// (the toolkit could not create the widget) yields no wrapper, so a
    /// constructed value always refers to a live widget.
    pub fn new(raw: usize) -> (r: Option<ObjectX>)
        ensures
            r is Some <==> raw != 0,
            (r matches Some(o) ==> o.wf() && o.handle() == raw && o.geom() == unknown_geometry()),
    {
        if raw == 0 {
            None
        } else {
            Some(
                ObjectX {
                    raw,
                    model: Geometry { x: None, y: None, width: None, height: None },
                },
            )
        }
    }
}

impl Container for ObjectX {
    closed spec fn handle(&self) -> usize {
        self.raw
    }

    closed spec fn wf(&self) -> bool {
        self.raw != 0
    }

    fn raw(&self) -> (r: usize) {
        self.raw
    }
}

impl Object for ObjectX {
    closed spec fn geom(&self) -> Geometry {
        self.model
    }

    type Rest = ();

    open spec fn rest(&self) -> () {
        ()
    }

    fn set_pos(&mut self, x: i16, y: i16) -> (cmd: PosCommand) {
        self.model = Geometry {
            x: Some(x),
            y: Some(y),
            width: self.model.width,
            height: self.model.height,
        };
        PosCommand { target: self.raw, x, y }
    }

    fn set_size(&mut self, w: i16, h: i16) -> (cmd: SizeCommand) {
        self.model = Geometry { x: self.model.x, y: self.model.y, width: Some(w), height: Some(h) };
        SizeCommand { target: self.raw, width: w, height: h }
    }

    fn set_width(&mut self, w: u32) -> (cmd: WidthCommand) {
        let width: i16 = #[verifier::truncate] (w as i16);
        self.model = Geometry {
            x: self.model.x,
            y: self.model.y,
            width: Some(width),
            height: self.model.height,
        };
        WidthCommand { target: self.raw, width }
    }

    fn set_height(&mut self, h: u32) -> (cmd: HeightCommand) {
        let height: i16 = #[verifier::truncate] (h as i16);
        self.model = Geometry {
            x: self.model.x,
            y: self.model.y,
            width: self.model.width,
            height: Some(height),
        };
        HeightCommand { target: self.raw, height }
    }

    fn set_object_align<C: Container>(
        &mut self,
        base: &mut C,
        align: ObjectAlign,
        x_mod: i32,
        y_mod: i32,
    ) -> (cmd: AlignCommand) {
        let code: u8 = align.to_raw();
        let xm: i16 = #[verifier::truncate] (x_mod as i16);
        let ym: i16 = #[verifier::truncate] (y_mod as i16);
        self.model = Geometry {
            x: None,
            y: None,
            width: self.model.width,
            height: self.model.height,
        };
        AlignCommand { target: self.raw, base: base.raw(), code, x_mod: xm, y_mod: ym }
    }

    fn geometry(&self) -> (g: Geometry) {
        self.model
    }
}

/// A pressable control.  All button behaviour (press detection, styling,
/// events) lives in the toolkit; here a button is its handle plus the shared
/// geometry capability.
pub struct Button {
    core: ObjectX,
}

impl Button {
    /// Wrap the handle the toolkit's button-creation call returned for a
    /// valid parent.  A null handle (creation failed) yields no button.
    pub fn new(raw: usize) -> (r: Option<Button>)
        ensures
            r is Some <==> raw != 0,
            (r matches Some(b) ==> b.wf() && b.handle() == raw && b.geom() == unknown_geometry()),
    {
        match ObjectX::new(raw) {
            Some(core) => Some(Button { core }),
            None => None,
        }
    }
}

impl Container for Button {
    closed spec fn handle(&self) -> usize {
        self.core.handle()
    }

    closed spec fn wf(&self) -> bool {
        self.core.wf()
    }

    fn raw(&self) -> (r: usize) {
        self.core.raw()
    }
}

impl Object for Button {
    closed spec fn geom(&self) -> Geometry {
        self.core.geom()
    }

    type Rest = ();

    open spec fn rest(&self) -> () {
        ()
    }

    fn set_pos(&mut self, x: i16, y: i16) -> (cmd: PosCommand) {
        self.core.set_pos(x, y)
    }

    fn set_size(&mut self, w: i16, h: i16) -> (cmd: SizeCommand) {
        self.core.set_size(w, h)
    }

    fn set_width(&mut self, w: u32) -> (cmd: WidthCommand) {
        self.core.set_width(w)
    }

    fn set_height(&mut self, h: u32) -> (cmd: HeightCommand) {
        self.core.set_height(h)
    }

    fn set_object_align<C: Container>(
        &mut self,
        base: &mut C,
        align: ObjectAlign,
        x_mod: i32,
        y_mod: i32,
    ) -> (cmd: AlignCommand) {
        self.core.set_object_align(base, align, x_mod, y_mod)
    }

    fn geometry(&self) -> (g: Geometry) {
        self.core.geometry()
    }
}

/// A text-display control: the shared geometry capability plus the text and
/// its justification.  The label's model records the text and justification
/// this layer last commanded, alongside the geometry.
pub struct Label {
    core: ObjectX,
    text: Option<String>,
    text_align: Option<LabelAlign>,
}

impl Label {
    /// The text this layer last commanded for the label, if any.
    pub closed spec fn text_model(&self) -> Option<Seq<char>> {
        match self.text {
            Some(s) => Some(s@),
            None => None,
        }
    }

    /// The justification this layer last commanded for the label, if any.
    pub closed spec fn align_model(&self) -> Option<LabelAlign> {
        self.text_align
    }

    /// Wrap the handle the toolkit's label-creation call returned for a
    /// valid parent.  A null handle (creation failed) yields no label.
    pub fn new(raw: usize) -> (r: Option<Label>)
        ensures
            r is Some <==> raw != 0,
            (r matches Some(l) ==> l.wf() && l.handle() == raw && l.geom() == unknown_geometry()
                && l.text_model() is None && l.align_model() is None),
    {
        match ObjectX::new(raw) {
            Some(core) => Some(Label { core, text: None, text_align: None }),
            None => None,
        }
    }

    /// Record and command the label's text.  The command carries an owned
    /// copy of the text, taken at this boundary, so the toolkit call never
    /// depends on the lifetime of the caller's buffer.
    pub fn set_text(&mut self, text: &str) -> (cmd: TextCommand)
        requires
            old(self).wf(),
        ensures
            final(self).wf(),
            final(self).handle() == old(self).handle(),
            final(self).geom() == old(self).geom(),
            final(self).align_model() == old(self).align_model(),
            final(self).text_model() == Some(text@),
            cmd.target == old(self).handle(),
            cmd.text@ == text@,
    {
        self.text = Some(text.to_owned());
        TextCommand { target: self.core.raw(), text: text.to_owned() }
    }

    /// Record and command the label's text justification; the selector
    /// becomes its toolkit constant.
    pub fn set_align(&mut self, align: LabelAlign) -> (cmd: LabelAlignCommand)
        requires
            old(self).wf(),
        ensures
            final(self).wf(),
            final(self).handle() == old(self).handle(),
            final(self).geom() == old(self).geom(),
            final(self).text_model() == old(self).text_model(),
            final(self).align_model() == Some(align),
            cmd == (LabelAlignCommand { target: old(self).handle(), code: label_align_code(align) }),
    {
        let code: u8 = align.to_raw();
        self.text_align = Some(align);
        LabelAlignCommand { target: self.core.raw(), code }
    }
}

impl Container for Label {
    closed spec fn handle(&self) -> usize {
        self.core.handle()
    }

    closed spec fn wf(&self) -> bool {
        self.core.wf()
    }

    fn raw(&self) -> (r: usize) {
        self.core.raw()
    }
}

impl Object for Label {
    closed spec fn geom(&self) -> Geometry {
        self.core.geom()
    }

    type Rest = (Option<Seq<char>>, Option<LabelAlign>);

    open spec fn rest(&self) -> (Option<Seq<char>>, Option<LabelAlign>) {
        (self.text_model(), self.align_model())
    }

    fn set_pos(&mut self, x: i16, y: i16) -> (cmd: PosCommand) {
        self.core.set_pos(x, y)
    }

    fn set_size(&mut self, w: i16, h: i16) -> (cmd: SizeCommand) {
        self.core.set_size(w, h)
    }

    fn set_width(&mut self, w: u32) -> (cmd: WidthCommand) {
        self.core.set_width(w)
    }

    fn set_height(&mut self, h: u32) -> (cmd: HeightCommand) {
        self.core.set_height(h)
    }

    fn set_object_align<C: Container>(
        &mut self,
        base: &mut C,
        align: ObjectAlign,
        x_mod: i32,
        y_mod: i32,
    ) -> (cmd: AlignCommand) {
        self.core.set_object_align(base, align, x_mod, y_mod)
    }

    fn geometry(&self) -> (g: Geometry) {
        self.core.geometry()
    }
}

} // verus!
