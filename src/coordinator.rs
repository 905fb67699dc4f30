use vstd::prelude::*;
use crate::command::Command;
use crate::document::{start_page_spec, DocumentList, DocumentSession, RenderError, RenderedPage};

verus! {

/// What the surrounding program must do after the coordinator took a command.
#[derive(Clone, Copy, Debug, PartialEq, Eq, Structural)]
pub enum Action {
    /// Nothing to do.
    Nothing,
    /// Render this page of the current document; on success hand it to `show_page`.
    ShowPage(usize),
    /// Open the document at this list index from its first page; on success
    /// hand it to `open_document`.
    SwitchDocument(usize),
    /// Re-open the current document asking for this page; on success hand it
    /// to `open_document`. When the document cannot be reopened the current
    /// session stays as it is.
    Reload(usize),
    /// Launch an external viewer on the current document.
    Launch,
    /// Stop browsing.
    Quit,
}

/// Sole owner of the navigation state: the document list, the open session,
/// and whether the first-page key was pressed by the previous command.
pub struct Coordinator {
    pub docs: DocumentList,
    pub session: DocumentSession,
    pub first_armed: bool,
}

impl Coordinator {
    pub open spec fn wf(&self) -> bool {
        &&& self.docs.wf()
        &&& self.session.wf()
        &&& self.session.path == self.docs.paths@[self.docs.current_index as int]
    }

    /// What taking `cmd` asks of the surrounding program.
    pub open spec fn action_for(&self, cmd: Command) -> Action {
        let p = self.session.current_page;
        let n = self.session.page_count;
        let i = self.docs.current_index;
        match cmd {
            Command::NextPage => if p + 1 < n { Action::ShowPage((p + 1) as usize) } else { Action::Nothing },
            Command::PreviousPage => if p > 0 { Action::ShowPage((p - 1) as usize) } else { Action::Nothing },
            Command::FirstPage => if self.first_armed { Action::ShowPage(0) } else { Action::Nothing },
            Command::LastPage => Action::ShowPage((n - 1) as usize),
            Command::NextDocument => if i + 1 < self.docs.paths@.len() {
                Action::SwitchDocument((i + 1) as usize)
            } else {
                Action::Nothing
            },
            Command::PreviousDocument => if i > 0 { Action::SwitchDocument((i - 1) as usize) } else { Action::Nothing },
            Command::Refresh => Action::Reload(p),
            Command::FileChanged(d) => if d == i { Action::Reload(p) } else { Action::Nothing },
            Command::Open => Action::Launch,
            Command::Quit => Action::Quit,
            Command::NoOp => Action::Nothing,
        }
    }

    /// The state once `cmd` was taken, before any render it asks for: only
    /// the first-page arming changes.
    pub open spec fn after_step(&self, cmd: Command) -> Coordinator {
        Coordinator { first_armed: cmd == Command::FirstPage, ..*self }
    }

    /// Starts browsing `docs` on its current document, opened as `session`.
    pub fn new(docs: DocumentList, session: DocumentSession) -> (c: Coordinator)
        requires
            docs.wf(),
            session.wf(),
            session.path == docs.paths@[docs.current_index as int],
        ensures
            c.wf(),
            c.docs == docs,
            c.session == session,
            !c.first_armed,
    {
        Coordinator { docs, session, first_armed: false }
    }

    /// Takes one command. Only the first-page arming changes here: the pages
    /// and documents move when the surrounding program reports a successful
    /// render through `show_page` or `open_document`.
    pub fn step(&mut self, cmd: Command) -> (act: Action)
        requires
            old(self).wf(),
        ensures
            final(self).wf(),
            act == old(self).action_for(cmd),
            *final(self) == old(self).after_step(cmd),
            final(self).docs == old(self).docs,
            final(self).session == old(self).session,
            final(self).first_armed == (cmd == Command::FirstPage),
    {
        let p = self.session.current_page;
        let n = self.session.page_count;
        let i = self.docs.current_index;
        let act = match cmd {
            Command::NextPage => if p < n - 1 { Action::ShowPage(p + 1) } else { Action::Nothing },
            Command::PreviousPage => if p > 0 { Action::ShowPage(p - 1) } else { Action::Nothing },
            Command::FirstPage => if self.first_armed { Action::ShowPage(0) } else { Action::Nothing },
            Command::LastPage => Action::ShowPage(n - 1),
            Command::NextDocument => if i < self.docs.len() - 1 {
                Action::SwitchDocument(i + 1)
            } else {
                Action::Nothing
            },
            Command::PreviousDocument => if i > 0 { Action::SwitchDocument(i - 1) } else { Action::Nothing },
            Command::Refresh => Action::Reload(p),
            Command::FileChanged(d) => if d == i { Action::Reload(p) } else { Action::Nothing },
            Command::Open => Action::Launch,
            Command::Quit => Action::Quit,
            Command::NoOp => Action::Nothing,
        };
        self.first_armed = match cmd {
            Command::FirstPage => true,
            _ => false,
        };
        act
    }

    /// Records that page `index` of the current document was rendered as `page`.
    pub fn show_page(&mut self, index: usize, page: RenderedPage)
        requires
            old(self).wf(),
            index < old(self).session.page_count,
        ensures
            final(self).wf(),
            final(self).session.current_page == index,
            final(self).session.page == page,
            final(self).session.page_count == old(self).session.page_count,
            final(self).session.path == old(self).session.path,
            final(self).docs == old(self).docs,
            final(self).first_armed == old(self).first_armed,
    {
        self.session.render_page(index, page);
    }

    /// Records that the document at list index `index`, found to have
    /// `page_count` pages, was opened on page `current_page`, rendered as `page`.
    /// The new session replaces the old one and the list moves to `index`.
    pub fn open_document(&mut self, index: usize, page_count: usize, current_page: usize, page: RenderedPage)
        requires
            old(self).wf(),
            index < old(self).docs.paths@.len(),
            current_page < page_count,
        ensures
            final(self).wf(),
            final(self).docs.paths == old(self).docs.paths,
            final(self).docs.current_index == index,
            final(self).session.path == old(self).docs.paths@[index as int],
            final(self).session.page_count == page_count,
            final(self).session.current_page == current_page,
            final(self).session.page == page,
            final(self).first_armed == old(self).first_armed,
    {
        let path = self.docs.path_at(index);
        self.session = DocumentSession::new(path, page_count, current_page, page);
        self.docs.current_index = index;
    }

    /// The path of the current document.
    pub fn current_path(&self) -> (p: String)
        requires
            self.wf(),
        ensures
            p == self.docs.paths@[self.docs.current_index as int],
    {
        self.docs.current()
    }

    /// The path of the document at list index `index`.
    pub fn path_at(&self, index: usize) -> (p: String)
        requires
            index < self.docs.paths@.len(),
        ensures
            p == self.docs.paths@[index as int],
    {
        self.docs.path_at(index)
    }

    pub fn current_page(&self) -> (p: usize)
        ensures
            p == self.session.current_page,
    {
        self.session.current_page
    }

    pub fn page_count(&self) -> (n: usize)
        ensures
            n == self.session.page_count,
    {
        self.session.page_count
    }

    pub fn current_index(&self) -> (i: usize)
        ensures
            i == self.docs.current_index,
    {
        self.docs.current_index
    }
}

/// Next page moves one page forward, and is a no-op on the last page.
pub proof fn lemma_next_page(c: Coordinator)
    requires
        c.wf(),
    ensures
        c.session.current_page + 1 < c.session.page_count ==> c.action_for(Command::NextPage)
            == Action::ShowPage((c.session.current_page + 1) as usize),
        c.session.current_page + 1 == c.session.page_count ==> c.action_for(Command::NextPage)
            == Action::Nothing,
{
}

/// Previous page moves one page back, and is a no-op on the first page.
pub proof fn lemma_previous_page(c: Coordinator)
    requires
        c.wf(),
    ensures
        c.session.current_page > 0 ==> c.action_for(Command::PreviousPage)
            == Action::ShowPage((c.session.current_page - 1) as usize),
        c.session.current_page == 0 ==> c.action_for(Command::PreviousPage) == Action::Nothing,
{
}

/// The first-page key acts only when pressed twice in a row: a single press
/// leaves the page where it is, a second consecutive press goes to page 0, and
/// any other command in between disarms it.
pub proof fn lemma_first_page_double_tap(c: Coordinator, other: Command)
    requires
        c.wf(),
        !c.first_armed,
        other != Command::FirstPage,
    ensures
        c.action_for(Command::FirstPage) == Action::Nothing,
        c.after_step(Command::FirstPage).session == c.session,
        c.after_step(Command::FirstPage).action_for(Command::FirstPage) == Action::ShowPage(0),
        c.after_step(Command::FirstPage).after_step(other).action_for(Command::FirstPage)
            == Action::Nothing,
{
}

/// Last page goes straight to the final page, from any page.
pub proof fn lemma_last_page(c: Coordinator)
    requires
        c.wf(),
    ensures
        c.action_for(Command::LastPage) == Action::ShowPage((c.session.page_count - 1) as usize),
{
}

/// Moving between documents never leaves the list, and at either end it does
/// nothing: the session stays as it was.
pub proof fn lemma_document_bounds(c: Coordinator, cmd: Command)
    requires
        c.wf(),
        cmd == Command::NextDocument || cmd == Command::PreviousDocument,
    ensures
        c.after_step(cmd).session == c.session,
        c.after_step(cmd).docs == c.docs,
        c.action_for(cmd) is SwitchDocument ==> c.action_for(cmd)->SwitchDocument_0 < c.docs.paths@.len(),
        cmd == Command::NextDocument && c.docs.current_index + 1 == c.docs.paths@.len()
            ==> c.action_for(cmd) == Action::Nothing,
        cmd == Command::PreviousDocument && c.docs.current_index == 0 ==> c.action_for(cmd)
            == Action::Nothing,
{
}

/// A reload asks for the page being shown; the reopened document keeps it when
/// it still has that page, and otherwise starts on its new last page.
pub proof fn lemma_refresh_keeps_page(c: Coordinator, new_page_count: usize)
    requires
        c.wf(),
        new_page_count > 0,
    ensures
        c.action_for(Command::Refresh) == Action::Reload(c.session.current_page),
        c.session.current_page < new_page_count ==> start_page_spec(
            Some(c.session.current_page),
            new_page_count,
        ) == Ok::<usize, RenderError>(c.session.current_page),
        c.session.current_page >= new_page_count ==> start_page_spec(
            Some(c.session.current_page),
            new_page_count,
        ) == Ok::<usize, RenderError>((new_page_count - 1) as usize),
{
}

} // verus!
