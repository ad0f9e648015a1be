//! Per-activity state and the decisions behind the activity callbacks. The
//! callbacks themselves arrive through the platform glue, which hands this
//! module plain values and carries out whatever `Action` comes back.

use vstd::prelude::*;
use crate::looper::Looper;
use crate::window::Window;

verus! {

/// What the glue must do after a callback decision.
pub enum Action {
    /// Nothing beyond what the callback itself already did.
    Nothing,
    /// Bring up a drawing surface for the native window with this handle.
    CreateSurface { window: usize },
    /// Paint one frame on the window with this handle.
    Paint { window: usize },
}

/// Per-activity state: at most one window, and the activity thread's looper.
pub struct App {
    pub window: Option<Window>,
    pub looper: Looper,
}

impl App {
    /// Fresh state for a just-created activity: no window yet.
    pub fn init(looper: Looper) -> (app: App)
        ensures
            app.window is None,
            app.looper == looper,
    {
        App { window: None, looper }
    }

    /// The window-resized callback is the first moment the platform
    /// guarantees real dimensions, so it is where the demo brings its
    /// surface up: the first such callback records the window and asks for
    /// a surface, every later one changes nothing.
    pub fn window_resized(&mut self, window: usize, width: i32, height: i32) -> (a: Action)
        ensures
            final(self).looper == old(self).looper,
            old(self).window is None ==> ({
                &&& final(self).window matches Some(w)
                    && w.handle == window
                    && w.width == width
                    && w.height == height
                &&& a == (Action::CreateSurface { window })
            }),
            old(self).window is Some ==> *final(self) == *old(self) && a == Action::Nothing,
    {
        match &self.window {
            None => {
                self.window = Some(Window::create(window, width, height));
                Action::CreateSurface { window }
            },
            Some(_) => Action::Nothing,
        }
    }

    /// The redraw callback paints the stored window; the demo never expects
    /// it before that window exists.
    pub fn window_redraw(&self) -> (a: Action)
        requires
            self.window is Some,
        ensures
            a == (Action::Paint { window: self.window->Some_0.handle }),
    {
        match &self.window {
            Some(w) => Action::Paint { window: w.handle },
            None => Action::Nothing,
        }
    }
}

} // verus!
