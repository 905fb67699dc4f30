use vstd::prelude::*;

verus! {

/// Encoded image bytes of one rendered page, with its size in pixels.
pub struct RenderedPage {
    pub data: Vec<u8>,
    pub width: u32,
    pub height: u32,
}

/// Why a document could not be opened or one of its pages rendered.
#[derive(Clone, Copy, Debug, PartialEq, Eq, Structural)]
pub enum RenderError {
    /// The file could not be read as a document of the expected format.
    Unreadable,
    /// The document has no pages.
    Empty,
    /// A page failed to rasterize.
    Rasterize,
}

/// The page at which a freshly opened document of `page_count` pages starts.
pub open spec fn start_page_spec(requested: Option<usize>, page_count: usize) -> Result<usize, RenderError> {
    if page_count == 0 {
        Err(RenderError::Empty)
    } else {
        match requested {
            Some(p) => if p < page_count { Ok(p) } else { Ok((page_count - 1) as usize) },
            None => Ok(0),
        }
    }
}

/// Chooses the page to render when a document of `page_count` pages is opened:
/// the requested page clamped into range, or the first page when none is requested.
pub fn start_page_index(requested: Option<usize>, page_count: usize) -> (r: Result<usize, RenderError>)
    ensures
        r == start_page_spec(requested, page_count),
        r is Ok ==> r->Ok_0 < page_count,
        r is Err <==> page_count == 0,
{
    if page_count == 0 {
        return Err(RenderError::Empty);
    }
    match requested {
        Some(p) => if p < page_count { Ok(p) } else { Ok(page_count - 1) },
        None => Ok(0),
    }
}

/// One open document: where it came from, how many pages it has, which page
/// is shown and that page's image.
pub struct DocumentSession {
    pub path: String,
    pub current_page: usize,
    pub page_count: usize,
    pub page: RenderedPage,
}

impl DocumentSession {
    pub open spec fn wf(&self) -> bool {
        self.current_page < self.page_count
    }

    /// A session on `path` showing `page`, the rendering of page `current_page`.
    pub fn new(path: String, page_count: usize, current_page: usize, page: RenderedPage) -> (s: DocumentSession)
        requires
            current_page < page_count,
        ensures
            s.wf(),
            s.path == path,
            s.page_count == page_count,
            s.current_page == current_page,
            s.page == page,
    {
        DocumentSession { path, current_page, page_count, page }
    }

    /// Records that page `index` was rendered as `page`.
    pub fn render_page(&mut self, index: usize, page: RenderedPage)
        requires
            index < old(self).page_count,
        ensures
            final(self).wf(),
            final(self).current_page == index,
            final(self).page == page,
            final(self).path == old(self).path,
            final(self).page_count == old(self).page_count,
    {
        self.current_page = index;
        self.page = page;
    }
}

/// The documents being browsed, in order, with a cursor on the current one.
pub struct DocumentList {
    pub paths: Vec<String>,
    pub current_index: usize,
}

impl DocumentList {
    pub open spec fn wf(&self) -> bool {
        self.current_index < self.paths@.len()
    }

    /// A list over `paths`, positioned on the first one.
    pub fn new(paths: Vec<String>) -> (l: DocumentList)
        requires
            paths@.len() > 0,
        ensures
            l.wf(),
            l.paths == paths,
            l.current_index == 0,
    {
        DocumentList { paths, current_index: 0 }
    }

    pub fn len(&self) -> (n: usize)
        ensures
            n == self.paths@.len(),
    {
        self.paths.len()
    }

    /// The path under the cursor.
    pub fn current(&self) -> (p: String)
        requires
            self.wf(),
        ensures
            p == self.paths@[self.current_index as int],
    {
        self.paths[self.current_index].clone()
    }

    /// The path at `index`.
    pub fn path_at(&self, index: usize) -> (p: String)
        requires
            index < self.paths@.len(),
        ensures
            p == self.paths@[index as int],
    {
        self.paths[index].clone()
    }

    /// Moves to the next path unless already on the last; says whether it moved.
    pub fn advance(&mut self) -> (moved: bool)
        requires
            old(self).wf(),
        ensures
            final(self).wf(),
            final(self).paths == old(self).paths,
            moved == (old(self).current_index + 1 < old(self).paths@.len()),
            final(self).current_index == if moved {
                old(self).current_index + 1
            } else {
                old(self).current_index as int
            },
    {
        if self.current_index < self.paths.len() - 1 {
            self.current_index = self.current_index + 1;
            true
        } else {
            false
        }
    }

    /// Moves to the previous path unless already on the first; says whether it moved.
    pub fn retreat(&mut self) -> (moved: bool)
        requires
            old(self).wf(),
        ensures
            final(self).wf(),
            final(self).paths == old(self).paths,
            moved == (old(self).current_index > 0),
            final(self).current_index == if moved {
                old(self).current_index - 1
            } else {
                old(self).current_index as int
            },
    {
        if self.current_index > 0 {
            self.current_index = self.current_index - 1;
            true
        } else {
            false
        }
    }
}

} // verus!
