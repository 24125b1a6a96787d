use vstd::prelude::*;
use crate::event::Handlers;
use crate::flags::{default_mode, Invalidation};
use crate::window::Geometry;
use crate::pipeline::Pipeline;

verus! {

/// How the main window is to be created.
#[derive(Debug)]
pub struct WindowDescription {
    pub title: String,
    pub inner_size: (u32, u32),
    pub min_inner_size: Option<(u32, u32)>,
    pub max_inner_size: Option<(u32, u32)>,
    pub position: Option<(i32, i32)>,
    pub resizable: bool,
    pub minimized: bool,
    pub maximized: bool,
    pub visible: bool,
    pub transparent: bool,
    pub decorations: bool,
    pub always_on_top: bool,
    pub vsync: bool,
    pub icon: Option<Vec<u8>>,
    pub icon_width: u32,
    pub icon_height: u32,
}

impl WindowDescription {
    /// The settings a window gets when none are given.
    pub open spec fn is_default(self) -> bool {
        &&& self.title@ == "Vizia Application"@
        &&& self.inner_size == (800u32, 600u32)
        &&& self.min_inner_size is None
        &&& self.max_inner_size is None
        &&& self.position is None
        &&& self.resizable && !self.minimized && !self.maximized && self.visible
        &&& !self.transparent && self.decorations && !self.always_on_top && self.vsync
        &&& self.icon is None
        &&& self.icon_width == 0 && self.icon_height == 0
    }

    pub fn new() -> (r: WindowDescription)
        ensures
            r.is_default(),
    {
        WindowDescription {
            title: String::from_str("Vizia Application"),
            inner_size: (800, 600),
            min_inner_size: None,
            max_inner_size: None,
            position: None,
            resizable: true,
            minimized: false,
            maximized: false,
            visible: true,
            transparent: false,
            decorations: true,
            always_on_top: false,
            vsync: true,
            icon: None,
            icon_width: 0,
            icon_height: 0,
        }
    }
}

/// An application before its loop starts: its handlers and its settings.
pub struct Application {
    pub handlers: Handlers,
    pub window_description: WindowDescription,
    pub should_poll: bool,
    pub ignore_default_theme: bool,
    /// The root's background color as 0xRRGGBBAA.
    pub background_color: Option<u32>,
    pub text_shaping_run_cache: Option<usize>,
    pub text_shaped_words_cache: Option<usize>,
}

impl Application {
    pub fn new(handlers: Handlers) -> (r: Application)
        ensures
            r.handlers == handlers,
            !r.should_poll,
            !r.ignore_default_theme,
            r.background_color is None,
            r.text_shaping_run_cache is None,
            r.text_shaped_words_cache is None,
            r.window_description.is_default(),
    {
        Application {
            handlers,
            window_description: WindowDescription::new(),
            should_poll: false,
            ignore_default_theme: false,
            background_color: None,
            text_shaping_run_cache: None,
            text_shaped_words_cache: None,
        }
    }

    pub fn ignore_default_theme(self) -> (r: Self)
        ensures
            r == (Application { ignore_default_theme: true, ..self }),
    {
        Application { ignore_default_theme: true, ..self }
    }

    /// Makes `Poll` the default continuation mode instead of `Wait`.
    pub fn should_poll(self) -> (r: Self)
        ensures
            r == (Application { should_poll: true, ..self }),
    {
        Application { should_poll: true, ..self }
    }

    pub fn background_color(self, rgba: u32) -> (r: Self)
        ensures
            r == (Application { background_color: Some(rgba), ..self }),
    {
        Application { background_color: Some(rgba), ..self }
    }

    /// Sets the size of the cache used for shaping lines of text.
    pub fn text_shaping_run_cache(self, size: usize) -> (r: Self)
        ensures
            r == (Application { text_shaping_run_cache: Some(size), ..self }),
    {
        Application { text_shaping_run_cache: Some(size), ..self }
    }

    /// Sets the size of the cache used for shaped words.
    pub fn text_shaped_words_cache(self, size: usize) -> (r: Self)
        ensures
            r == (Application { text_shaped_words_cache: Some(size), ..self }),
    {
        Application { text_shaped_words_cache: Some(size), ..self }
    }

    pub fn title(self, title: String) -> (r: Self)
        ensures
            r == (Application {
                window_description: WindowDescription { title: title, ..self.window_description },
                ..self
            }),
    {
        let mut a = self;
        a.window_description.title = title;
        a
    }

    pub fn inner_size(self, width: u32, height: u32) -> (r: Self)
        ensures
            r == (Application {
                window_description: WindowDescription { inner_size: (width, height), ..self.window_description },
                ..self
            }),
    {
        let mut a = self;
        a.window_description.inner_size = (width, height);
        a
    }

    pub fn min_inner_size(self, size: Option<(u32, u32)>) -> (r: Self)
        ensures
            r == (Application {
                window_description: WindowDescription { min_inner_size: size, ..self.window_description },
                ..self
            }),
    {
        let mut a = self;
        a.window_description.min_inner_size = size;
        a
    }

    pub fn max_inner_size(self, size: Option<(u32, u32)>) -> (r: Self)
        ensures
            r == (Application {
                window_description: WindowDescription { max_inner_size: size, ..self.window_description },
                ..self
            }),
    {
        let mut a = self;
        a.window_description.max_inner_size = size;
        a
    }

    pub fn position(self, x: i32, y: i32) -> (r: Self)
        ensures
            r == (Application {
                window_description: WindowDescription { position: Some((x, y)), ..self.window_description },
                ..self
            }),
    {
        let mut a = self;
        a.window_description.position = Some((x, y));
        a
    }

    pub fn resizable(self, flag: bool) -> (r: Self)
        ensures
            r == (Application {
                window_description: WindowDescription { resizable: flag, ..self.window_description },
                ..self
            }),
    {
        let mut a = self;
        a.window_description.resizable = flag;
        a
    }

    pub fn visible(self, flag: bool) -> (r: Self)
        ensures
            r == (Application {
                window_description: WindowDescription { visible: flag, ..self.window_description },
                ..self
            }),
    {
        let mut a = self;
        a.window_description.visible = flag;
        a
    }

    pub fn minimized(self, flag: bool) -> (r: Self)
        ensures
            r == (Application {
                window_description: WindowDescription { minimized: flag, ..self.window_description },
                ..self
            }),
    {
        let mut a = self;
        a.window_description.minimized = flag;
        a
    }

    pub fn maximized(self, flag: bool) -> (r: Self)
        ensures
            r == (Application {
                window_description: WindowDescription { maximized: flag, ..self.window_description },
                ..self
            }),
    {
        let mut a = self;
        a.window_description.maximized = flag;
        a
    }

    pub fn transparent(self, flag: bool) -> (r: Self)
        ensures
            r == (Application {
                window_description: WindowDescription { transparent: flag, ..self.window_description },
                ..self
            }),
    {
        let mut a = self;
        a.window_description.transparent = flag;
        a
    }

    pub fn always_on_top(self, flag: bool) -> (r: Self)
        ensures
            r == (Application {
                window_description: WindowDescription { always_on_top: flag, ..self.window_description },
                ..self
            }),
    {
        let mut a = self;
        a.window_description.always_on_top = flag;
        a
    }

    pub fn decorations(self, flag: bool) -> (r: Self)
        ensures
            r == (Application {
                window_description: WindowDescription { decorations: flag, ..self.window_description },
                ..self
            }),
    {
        let mut a = self;
        a.window_description.decorations = flag;
        a
    }

    pub fn vsync(self, flag: bool) -> (r: Self)
        ensures
            r == (Application {
                window_description: WindowDescription { vsync: flag, ..self.window_description },
                ..self
            }),
    {
        let mut a = self;
        a.window_description.vsync = flag;
        a
    }

    pub fn icon(self, image: Vec<u8>, width: u32, height: u32) -> (r: Self)
        ensures
            r == (Application {
                window_description: WindowDescription { icon: Some(image), icon_width: width, icon_height: height, ..self.window_description },
                ..self
            }),
    {
        let mut a = self;
        a.window_description.icon = Some(image);
        a.window_description.icon_width = width;
        a.window_description.icon_height = height;
        a
    }

    /// The scheduling state the loop starts from: the window at its
    /// configured size, and the configured default continuation mode.
    pub fn into_pipeline(self) -> (r: Pipeline)
        requires
            self.handlers.well_behaved(),
        ensures
            r.wf(),
            r.handlers == self.handlers,
            r.default_should_poll == self.should_poll,
            r.control_flow == default_mode(self.should_poll),
            r.geometry == Geometry::initial(
                self.window_description.inner_size.0,
                self.window_description.inner_size.1,
            ),
            r.flags == Invalidation::clean(),
            r.animations.active@.len() == 0,
            r.bindings.items@.len() == 0,
            r.entities.generations@.len() == 1,
            r.queue.pending@.len() == 0,
            !r.exit_requested,
            !r.window_has_focus,
            r.window_attached,
    {
        let (w, h) = self.window_description.inner_size;
        Pipeline::new(self.handlers, w, h, self.should_poll)
    }
}

} // verus!
