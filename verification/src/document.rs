use crate::row::Row;
use vstd::prelude::*;

verus! {

/// An ordered collection of rows, in on-disk line order, plus the optional
/// name of the source the text came from.  No mutation is in scope: a
/// document is built once and read thereafter.
pub struct Document {
    /// The rows of text, in on-disk line order.
    pub rows: Vec<Row>,
    /// The name of the source the document was loaded from, if any; shown
    /// on the status bar.
    pub file_name: Option<String>,
}

impl View for Document {
    type V = Seq<Seq<Seq<char>>>;

    /// A document is modelled as its rows, each as its grapheme clusters.
    closed spec fn view(&self) -> Seq<Seq<Seq<char>>> {
        self.rows@.map_values(|r: Row| r@)
    }
}

impl Document {
    /// Builds a document over the given rows, kept in order.
    pub fn from_rows(rows: Vec<Row>, file_name: Option<String>) -> (d: Document)
        ensures
            d@ == rows@.map_values(|r: Row| r@),
            d.file_name == file_name,
    {
        Document { rows, file_name }
    }

    /// The number of rows.
    pub fn len(&self) -> (n: usize)
        ensures
            n == self@.len(),
    {
        self.rows.len()
    }

    /// Whether the document holds no rows at all.
    pub fn is_empty(&self) -> (b: bool)
        ensures
            b == (self@.len() == 0),
    {
        self.rows.len() == 0
    }

    /// The row at `index`, or nothing for an out-of-range index; the call
    /// never fails.
    pub fn row(&self, index: usize) -> (r: Option<&Row>)
        ensures
            match r {
                Some(row) => index < self@.len() && row@ == self@[index as int],
                None => index >= self@.len(),
            },
    {
        if index < self.rows.len() {
            Some(&self.rows[index])
        } else {
            None
        }
    }
}

impl Default for Document {
    /// An empty document with no source name.
    fn default() -> (d: Document)
        ensures
            d@.len() == 0,
            d.file_name is None,
    {
        Document { rows: Vec::new(), file_name: None }
    }
}

/// The grapheme length of the row at `y`, with an implicit length of zero
/// for any index outside the document (the one-past-last sentinel row
/// included).
pub open spec fn row_len(doc: Seq<Seq<Seq<char>>>, y: int) -> int {
    if 0 <= y < doc.len() {
        doc[y].len() as int
    } else {
        0
    }
}

} // verus!
