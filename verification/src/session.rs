//! The terminal session: the attributes captured when it began, the size of
//! the screen, and what each of its operations asks of the terminal.

use vstd::prelude::*;
use crate::attributes::{
    platform_layout,
    raw_mode_attributes,
    raw_mode_model,
    AttributeLayout,
    AttributesModel,
    TerminalAttributes,
    READ_SLOT_LIMIT,
};
use crate::error::IoError;
use crate::geometry::ScreenSize;
use crate::input::{
    ctrl_key,
    lemma_quit_key_value,
    quit_key,
    read_key,
    read_key_model,
    ReadOutcome,
    ReadStep,
    QUIT_LETTER,
};
use crate::screen::{frame, render_frame};

verus! {

/// A terminal session.
///
/// The saved attributes are those that the terminal had before the session
/// touched it. No operation changes them.
#[derive(Debug)]
pub struct TerminalSession {
    saved_attributes: TerminalAttributes,
    layout: AttributeLayout,
    size: ScreenSize,
    titled: bool,
}

/// The mathematical value of a [`TerminalSession`].
pub struct SessionModel {
    /// The attributes captured when the session began.
    pub saved: AttributesModel,
    /// The platform's attribute layout.
    pub layout: AttributeLayout,
    /// The size of the screen, as it was when the session began.
    pub size: ScreenSize,
    /// Whether a frame shows the title row.
    pub titled: bool,
}

/// What handling a keypress does after one read of the input stream.
#[derive(Debug, PartialEq, Eq)]
pub enum KeypressStep {
    /// No key yet: read again.
    ReadAgain,
    /// A key that means nothing was pressed: go on.
    Continue,
    /// The quit key was pressed: write this last frame, then end the loop.
    Terminate(Vec<u8>),
    /// Reading failed.
    Fail(IoError),
}

/// What is left to do when a session ends: write the frame, then apply the
/// attributes, and go on whether or not either works.
#[derive(Debug, PartialEq, Eq)]
pub struct Teardown {
    pub frame: Vec<u8>,
    pub attributes: TerminalAttributes,
}

impl SessionModel {
    /// The session that begins with the given attributes, on a screen of the
    /// given size.
    pub open spec fn created(
        attributes: AttributesModel,
        layout: AttributeLayout,
        size: ScreenSize,
    ) -> SessionModel {
        SessionModel { saved: attributes, layout, size, titled: true }
    }

    /// The attributes that enabling raw mode applies.
    pub open spec fn raw_mode(self) -> AttributesModel {
        raw_mode_model(self.saved, self.layout)
    }

    /// The attributes that disabling raw mode applies.
    pub open spec fn restored(self) -> AttributesModel {
        self.saved
    }

    /// The bytes that a refresh of the screen writes.
    pub open spec fn frame(self) -> Seq<u8> {
        frame(self.size, self.titled)
    }
}

impl View for TerminalSession {
    type V = SessionModel;

    closed spec fn view(&self) -> SessionModel {
        SessionModel {
            saved: self.saved_attributes@,
            layout: self.layout,
            size: self.size,
            titled: self.titled,
        }
    }
}

impl TerminalSession {
    #[verifier::type_invariant]
    spec fn layout_fits(self) -> bool {
        self.layout.fits(self.saved_attributes@)
    }

    /// Begins a session on this platform with the attributes that the
    /// terminal has now and the size of its screen.
    ///
    /// Fails where the attributes lack a control character that raw mode has
    /// to set on this platform. Which slots those are is the platform's
    /// matter, but none lies as high as [`READ_SLOT_LIMIT`]: attributes with
    /// that many control characters always give a session.
    pub fn create(attributes: TerminalAttributes, size: ScreenSize) -> (created: Result<
        TerminalSession,
        IoError,
    >)
        ensures
            attributes@.control_chars.len() >= READ_SLOT_LIMIT ==> created is Ok,
            attributes@.control_chars.len() == 0 ==> created is Err,
            match created {
                Ok(session) => {
                    &&& session@.saved == attributes@
                    &&& session@.size == size
                    &&& session@.titled
                    &&& session@.layout.fits(attributes@)
                },
                Err(error) => error == IoError::Attributes,
            },
    {
        TerminalSession::create_with_layout(attributes, size, platform_layout())
    }

    /// Begins a session on a platform with the given layout.
    ///
    /// Fails if and only if the attributes lack a control character that raw
    /// mode has to set.
    pub fn create_with_layout(
        attributes: TerminalAttributes,
        size: ScreenSize,
        layout: AttributeLayout,
    ) -> (created: Result<TerminalSession, IoError>)
        ensures
            match created {
                Ok(session) => layout.fits(attributes@) && session@ == SessionModel::created(
                    attributes@,
                    layout,
                    size,
                ),
                Err(error) => !layout.fits(attributes@) && error == IoError::Attributes,
            },
    {
        if layout.fits_attributes(&attributes) {
            Ok(TerminalSession { saved_attributes: attributes, layout, size, titled: true })
        } else {
            Err(IoError::Attributes)
        }
    }

    /// The same session with the title row shown or not.
    pub fn with_title(self, titled: bool) -> (session: TerminalSession)
        ensures
            session@ == (SessionModel { titled, ..self@ }),
    {
        proof {
            use_type_invariant(&self);
        }
        let mut session = self;
        session.titled = titled;
        session
    }

    /// The attributes captured when the session began.
    pub fn saved_attributes(&self) -> (saved: &TerminalAttributes)
        ensures
            saved@ == self@.saved,
    {
        &self.saved_attributes
    }

    /// The platform's attribute layout, which fits the saved attributes.
    pub fn layout(&self) -> (layout: AttributeLayout)
        ensures
            layout == self@.layout,
            layout.fits(self@.saved),
    {
        proof {
            use_type_invariant(self);
        }
        self.layout
    }

    /// The size of the screen, as it was when the session began.
    pub fn size(&self) -> (size: ScreenSize)
        ensures
            size == self@.size,
    {
        self.size
    }

    /// The number of rows of the screen.
    pub fn rows(&self) -> (rows: u16)
        ensures
            rows == self@.size.rows,
    {
        self.size.rows
    }

    /// The number of columns of the screen.
    pub fn columns(&self) -> (columns: u16)
        ensures
            columns == self@.size.columns,
    {
        self.size.columns
    }

    /// Whether a frame shows the title row.
    pub fn shows_title(&self) -> (titled: bool)
        ensures
            titled == self@.titled,
    {
        self.titled
    }

    /// The attributes to apply to the terminal, at once and with unread input
    /// discarded, to switch it to raw mode.
    pub fn enable_raw_mode(&self) -> (raw: TerminalAttributes)
        ensures
            raw@ == self@.raw_mode(),
            self@.layout.fits(self@.saved),
    {
        proof {
            use_type_invariant(self);
        }
        raw_mode_attributes(&self.saved_attributes, &self.layout)
    }

    /// The attributes to apply to the terminal, with unread input discarded,
    /// to leave raw mode: those captured when the session began, whether or
    /// not raw mode was ever enabled.
    pub fn disable_raw_mode(&self) -> (restored: TerminalAttributes)
        ensures
            restored@ == self@.restored(),
    {
        self.saved_attributes.clone()
    }

    /// The bytes to write to redraw the whole screen.
    pub fn refresh_screen(&self) -> (bytes: Vec<u8>)
        ensures
            bytes@ == self@.frame(),
    {
        render_frame(self.size, self.titled)
    }

    /// Handles a keypress, given the outcome of one read of the input stream.
    ///
    /// The quit key ends the loop after a last refresh of the screen. Every
    /// other key goes unheeded.
    pub fn process_keypress(&self, outcome: ReadOutcome) -> (step: KeypressStep)
        ensures
            match read_key_model(outcome) {
                ReadStep::Retry => step == KeypressStep::ReadAgain,
                ReadStep::Key(key) => if key == quit_key() {
                    step matches KeypressStep::Terminate(bytes) && bytes@ == self@.frame()
                } else {
                    step == KeypressStep::Continue
                },
                ReadStep::Fail(error) => step == KeypressStep::Fail(error),
            },
            step is Terminate <==> outcome == ReadOutcome::Byte(0x11),
    {
        proof {
            lemma_quit_key_value();
        }
        match read_key(outcome) {
            ReadStep::Retry => KeypressStep::ReadAgain,
            ReadStep::Key(key) => {
                if key == ctrl_key(QUIT_LETTER) {
                    KeypressStep::Terminate(self.refresh_screen())
                } else {
                    KeypressStep::Continue
                }
            },
            ReadStep::Fail(error) => KeypressStep::Fail(error),
        }
    }

    /// Ends the session: the last frame to write and the attributes to apply
    /// after it, which are those captured when the session began.
    pub fn destroy(self) -> (teardown: Teardown)
        ensures
            teardown.frame@ == self@.frame(),
            teardown.attributes@ == self@.restored(),
    {
        let frame = self.refresh_screen();
        Teardown { frame, attributes: self.saved_attributes }
    }
}

/// Leaving raw mode applies the attributes that the session began with, bit
/// for bit, whatever raw mode made of them in between.
pub proof fn lemma_disable_restores_captured(
    captured: AttributesModel,
    layout: AttributeLayout,
    size: ScreenSize,
)
    ensures
        SessionModel::created(captured, layout, size).restored() == captured,
{
}

} // verus!
