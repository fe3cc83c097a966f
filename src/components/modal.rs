use vstd::prelude::*;

verus! {

/// A request that the page makes of a modal.
#[derive(Clone, Copy, PartialEq, Eq, Debug, Structural)]
pub enum ModalCommand {
    /// Open the modal
    Show,
    /// Close the modal
    Hide,
}

/// What happens to a modal: its element enters or leaves the page, or the widget
/// reports that it opens or has closed.
#[derive(Clone, Copy, PartialEq, Eq, Debug, Structural)]
pub enum ModalEvent {
    /// The element is on the page and a widget object was made for it
    Mounted,
    /// The element leaves the page
    Unmounted,
    /// The widget begins to open the modal
    ShowStarted,
    /// The widget has closed the modal
    Hidden,
}

/// A command that cannot be carried out.
#[derive(Clone, Copy, PartialEq, Eq, Debug, Structural)]
pub enum ModalError {
    /// The modal's element is not on the page, so there is no widget to command
    NotMounted(ModalCommand),
}

impl ModalError {
    /// A sentence that describes the error.
    pub fn message(&self) -> (r: &'static str)
        ensures
            r@ == (match self {
                ModalError::NotMounted(ModalCommand::Show) =>
                    "Tried to show a modal but its view is not added to the page"@,
                ModalError::NotMounted(ModalCommand::Hide) =>
                    "Tried to hide a modal but its view is not added to the page"@,
            }),
    {
        match self {
            ModalError::NotMounted(ModalCommand::Show) =>
                "Tried to show a modal but its view is not added to the page",
            ModalError::NotMounted(ModalCommand::Hide) =>
                "Tried to hide a modal but its view is not added to the page",
        }
    }
}

/// What the page knows of a modal: whether its widget exists and whether it shows.
#[derive(Clone, Copy, PartialEq, Eq, Debug, Structural)]
pub struct ModalState {
    /// A widget object exists for the modal's element
    pub mounted: bool,
    /// The modal is open or opening
    pub showing: bool,
}

impl ModalState {
    /// A modal that is not on the page and not showing.
    pub fn new() -> (r: ModalState)
        ensures
            !r.mounted,
            !r.showing,
    {
        ModalState { mounted: false, showing: false }
    }

    /// Whether the modal is open or opening.
    pub fn showing(&self) -> (r: bool)
        ensures
            r == self.showing,
    {
        self.showing
    }

    /// Takes in an event; the result says whether the widget object must be disposed
    /// of, which is so when the element leaves the page while a widget exists.
    pub fn handle(&mut self, event: ModalEvent) -> (dispose: bool)
        ensures
            dispose == (event == ModalEvent::Unmounted && old(self).mounted),
            final(self).mounted == match event {
                ModalEvent::Mounted => true,
                ModalEvent::Unmounted => false,
                _ => old(self).mounted,
            },
            final(self).showing == match event {
                ModalEvent::ShowStarted => true,
                ModalEvent::Hidden => false,
                _ => old(self).showing,
            },
    {
        match event {
            ModalEvent::Mounted => {
                self.mounted = true;
                false
            },
            ModalEvent::Unmounted => {
                let dispose = self.mounted;
                self.mounted = false;
                dispose
            },
            ModalEvent::ShowStarted => {
                self.showing = true;
                false
            },
            ModalEvent::Hidden => {
                self.showing = false;
                false
            },
        }
    }

    /// The command to hand to the widget, or why there is none to hand it to.
    pub fn command(&self, command: ModalCommand) -> (r: Result<ModalCommand, ModalError>)
        ensures
            self.mounted ==> r == Ok::<ModalCommand, ModalError>(command),
            !self.mounted ==> r == Err::<ModalCommand, ModalError>(
                ModalError::NotMounted(command),
            ),
    {
        if self.mounted {
            Ok(command)
        } else {
            Err(ModalError::NotMounted(command))
        }
    }
}

} // verus!
