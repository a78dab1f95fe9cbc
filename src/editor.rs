//! The editor: the open buffers, one of them active, to which it hands the
//! input events.
use vstd::prelude::*;
use crate::buffer::{Buffer, char_input_post, key_input_post, mouse_input_post, mouse_move_post};
use crate::cursor::Cursor;
use crate::input::{ElementState, KeyboardInput, MouseButton};
use crate::location::Location;
use crate::text::{split_lines, join_lines};
use crate::view::{Size, Position, clamp, max_scroll};

verus! {

/// The open buffers and the index of the active one.
pub struct Editor {
    buffers: Vec<Buffer>,
    active_buffer: usize,
    size: Size,
}

/// `b1` is `b0` after the viewport took the size `size`.
pub open spec fn resized(b0: Buffer, b1: Buffer, size: Size) -> bool {
    &&& b1.wf()
    &&& b1.size() == size
    &&& b1.scroll_offset() == clamp(b0.scroll_offset(), max_scroll(b0.text().len() as int, size.height as int))
    &&& b1.text() == b0.text()
    &&& b1.cursor() == b0.cursor()
    &&& b1.dragging() == b0.dragging()
    &&& b1.path() == b0.path()
}

/// `b1` is `b0` after scrolling by `delta` pixels.
pub open spec fn scrolled(b0: Buffer, b1: Buffer, delta: int) -> bool {
    &&& b1.scroll_offset() == clamp(b0.scroll_offset() + delta, max_scroll(b0.text().len() as int, b0.size().height as int))
    &&& b1.text() == b0.text()
    &&& b1.cursor() == b0.cursor()
    &&& b1.dragging() == b0.dragging()
    &&& b1.size() == b0.size()
    &&& b1.path() == b0.path()
}

impl Editor {
    /// The open buffers.
    pub closed spec fn buffers(&self) -> Seq<Buffer> {
        self.buffers@
    }

    /// The index of the active buffer.
    pub closed spec fn active_index(&self) -> int {
        self.active_buffer as int
    }

    /// The size of the viewport.
    pub closed spec fn size(&self) -> Size {
        self.size
    }

    /// The active buffer.
    pub open spec fn active(&self) -> Buffer {
        self.buffers()[self.active_index()]
    }

    /// The editor's invariant: the active index names a buffer, and every
    /// buffer is well-formed.
    pub open spec fn wf(&self) -> bool {
        &&& 0 <= self.active_index() < self.buffers().len()
        &&& forall|i: int| 0 <= i < self.buffers().len() ==> (#[trigger] self.buffers()[i]).wf()
    }

    /// The active buffer of `e1` is that of `e0` changed, and nothing else
    /// changed.
    pub open spec fn only_active_changed(e0: Editor, e1: Editor) -> bool {
        &&& e1.active_index() == e0.active_index()
        &&& e1.size() == e0.size()
        &&& e1.buffers().len() == e0.buffers().len()
        &&& forall|i: int| 0 <= i < e0.buffers().len() && i != e0.active_index()
            ==> e1.buffers()[i] == e0.buffers()[i]
    }

    /// An editor with one buffer, made from `content`, the text of the file
    /// at `file_name`.
    pub fn new(size: Size, file_name: String, content: &str) -> (r: Editor)
        ensures
            r.wf(),
            r.buffers().len() == 1,
            r.active_index() == 0,
            r.size() == size,
            r.active().text() == split_lines(content@),
            r.active().cursor() == (Cursor { location: Location { row: 0, col: 0 }, col_affinity: 0, selection_start: None }),
            r.active().scroll_offset() == 0,
            !r.active().dragging(),
            r.active().size() == size,
            r.active().path() == file_name@,
    {
        let buffer = Buffer::new(size, file_name, content);
        let mut buffers: Vec<Buffer> = Vec::new();
        buffers.push(buffer);
        Editor { buffers, active_buffer: 0, size }
    }

    /// The active buffer.
    pub fn active_buffer(&self) -> (r: &Buffer)
        requires
            self.wf(),
        ensures
            *r == self.active(),
    {
        &self.buffers[self.active_buffer]
    }

    /// The text of the active buffer, to write back to its file.
    pub fn save(&self) -> (r: String)
        requires
            self.wf(),
        ensures
            r@ == join_lines(self.active().text()),
    {
        self.buffers[self.active_buffer].save()
    }

    /// Takes the new size of the viewport and hands it to every buffer.
    pub fn update_size(&mut self, size: Size)
        requires
            old(self).wf(),
        ensures
            final(self).wf(),
            final(self).size() == size,
            final(self).active_index() == old(self).active_index(),
            final(self).buffers().len() == old(self).buffers().len(),
            forall|i: int| 0 <= i < old(self).buffers().len()
                ==> resized(#[trigger] old(self).buffers()[i], final(self).buffers()[i], size),
    {
        self.size = size;
        let n = self.buffers.len();
        let mut i: usize = 0;
        while i < n
            invariant
                0 <= i <= n,
                n == old(self).buffers().len(),
                self.buffers().len() == n,
                self.size == size,
                self.active_buffer == old(self).active_buffer,
                forall|j: int| 0 <= j < i ==> resized(#[trigger] old(self).buffers()[j], self.buffers()[j], size),
                forall|j: int| i <= j < n ==> #[trigger] self.buffers()[j] == old(self).buffers()[j],
                forall|j: int| 0 <= j < n ==> (#[trigger] old(self).buffers()[j]).wf(),
            decreases n - i,
        {
            self.buffers[i].update_size(size);
            i += 1;
        }
        assert forall|j: int| 0 <= j < self.buffers().len() implies (#[trigger] self.buffers()[j]).wf() by {
            assert(resized(old(self).buffers()[j], self.buffers()[j], size));
        }
    }

    /// Hands a typed character to the active buffer.
    pub fn handle_char_input(&mut self, input: char)
        requires
            old(self).wf(),
        ensures
            final(self).wf(),
            Self::only_active_changed(*old(self), *final(self)),
            char_input_post(old(self).active(), final(self).active(), input),
    {
        self.buffers[self.active_buffer].handle_char_input(input);
    }

    /// Hands a key event to the active buffer.
    pub fn handle_keyboard_input(&mut self, input: KeyboardInput)
        requires
            old(self).wf(),
        ensures
            final(self).wf(),
            Self::only_active_changed(*old(self), *final(self)),
            key_input_post(old(self).active(), final(self).active(), input),
    {
        self.buffers[self.active_buffer].handle_keyboard_input(input);
    }

    /// Hands a mouse button event to the active buffer.
    pub fn handle_mouse_input(&mut self, button: MouseButton, state: ElementState, position: Position)
        requires
            old(self).wf(),
        ensures
            final(self).wf(),
            Self::only_active_changed(*old(self), *final(self)),
            mouse_input_post(old(self).active(), final(self).active(), button, state, position),
    {
        self.buffers[self.active_buffer].handle_mouse_input(button, state, position);
    }

    /// Hands a pointer move to the active buffer.
    pub fn handle_mouse_move(&mut self, position: Position)
        requires
            old(self).wf(),
        ensures
            final(self).wf(),
            Self::only_active_changed(*old(self), *final(self)),
            mouse_move_post(old(self).active(), final(self).active(), position),
    {
        self.buffers[self.active_buffer].handle_mouse_move(position);
    }

    /// Scrolls the active buffer by `delta` pixels.
    pub fn scroll(&mut self, delta: i64)
        requires
            old(self).wf(),
        ensures
            final(self).wf(),
            Self::only_active_changed(*old(self), *final(self)),
            scrolled(old(self).active(), final(self).active(), delta as int),
    {
        self.buffers[self.active_buffer].scroll(delta);
    }
}

} // verus!
