//! The syntax tree that the parser hands over: a list of top-level items,
//! each an abstraction or an application, with the place of each in the
//! source text.

use vstd::prelude::*;

verus! {

/// A place in a source text. Lines and columns count from 1.
#[derive(Clone, Copy, Debug, PartialEq, Eq)]
pub struct SourcePosition {
    pub line: i32,
    pub column: i32,
}

/// The stretch of source text that an item was read from: where it starts,
/// and where what follows it starts.
#[derive(Clone, Copy, Debug, PartialEq, Eq)]
pub struct SourceRange {
    pub start: SourcePosition,
    pub end: SourcePosition,
}

/// An application of the value at one index to the value at another.
#[derive(Clone, Copy, Debug, PartialEq, Eq)]
pub struct App {
    pub func_idx: usize,
    pub arg_idx: usize,
    pub range: SourceRange,
}

/// An abstraction: its arity and the applications of its body.
#[derive(Debug, PartialEq)]
pub struct Abs {
    pub arity: usize,
    pub body: Vec<App>,
    pub range: SourceRange,
}

/// A top-level item.
#[derive(Debug, PartialEq)]
pub enum Top {
    Abs(Abs),
    App(App),
}

/// A program.
#[derive(Debug, PartialEq)]
pub struct Prog {
    pub items: Vec<Top>,
}

/// The model of an abstraction.
pub struct AbsModel {
    pub arity: usize,
    pub body: Seq<App>,
    pub range: SourceRange,
}

/// The model of a top-level item.
pub enum TopModel {
    Abs(AbsModel),
    App(App),
}

impl View for Abs {
    type V = AbsModel;

    open spec fn view(&self) -> AbsModel {
        AbsModel { arity: self.arity, body: self.body@, range: self.range }
    }
}

impl View for Top {
    type V = TopModel;

    open spec fn view(&self) -> TopModel {
        match *self {
            Top::Abs(abs) => TopModel::Abs(abs@),
            Top::App(app) => TopModel::App(app),
        }
    }
}

impl View for Prog {
    type V = Seq<TopModel>;

    open spec fn view(&self) -> Seq<TopModel> {
        self.items@.map_values(|t: Top| t@)
    }
}

impl Clone for Abs {
    fn clone(&self) -> (r: Self)
        ensures
            r@ == self@,
    {
        let mut body: Vec<App> = Vec::new();
        let mut j: usize = 0;
        while j < self.body.len()
            invariant
                j <= self.body.len(),
                body@ == self.body@.take(j as int),
            decreases self.body.len() - j,
        {
            body.push(self.body[j]);
            j += 1;
        }
        assert(self.body@.take(j as int) =~= self.body@);
        Abs { arity: self.arity, body, range: self.range }
    }
}

impl Clone for Top {
    fn clone(&self) -> (r: Self)
        ensures
            r@ == self@,
    {
        match self {
            Top::Abs(abs) => Top::Abs(abs.clone()),
            Top::App(app) => Top::App(*app),
        }
    }
}

impl Clone for Prog {
    fn clone(&self) -> (r: Self)
        ensures
            r@ == self@,
    {
        let mut items: Vec<Top> = Vec::new();
        let mut i: usize = 0;
        while i < self.items.len()
            invariant
                i <= self.items.len(),
                items@.len() == i,
                forall|k: int| 0 <= k < i ==> (#[trigger] items@[k])@ == self.items@[k]@,
            decreases self.items.len() - i,
        {
            items.push(self.items[i].clone());
            i += 1;
        }
        Prog { items }
    }
}

impl SourcePosition {
    /// Where every text starts: line 1, column 1.
    pub fn origin() -> (p: SourcePosition)
        ensures
            p == origin(),
    {
        SourcePosition { line: 1, column: 1 }
    }
}

/// Line 1, column 1.
pub open spec fn origin() -> SourcePosition {
    SourcePosition { line: 1, column: 1 }
}

/// Both indices of the application are positive.
pub open spec fn app_valid(app: App) -> bool {
    app.func_idx >= 1 && app.arg_idx >= 1
}

/// The arity is positive and every application of the body is valid.
pub open spec fn abs_valid(abs: AbsModel) -> bool {
    &&& abs.arity >= 1
    &&& forall|j: int| 0 <= j < abs.body.len() ==> app_valid(#[trigger] abs.body[j])
}

/// The item is valid.
pub open spec fn top_valid(top: TopModel) -> bool {
    match top {
        TopModel::Abs(abs) => abs_valid(abs),
        TopModel::App(app) => app_valid(app),
    }
}

/// Every arity and index of the program is positive.
pub open spec fn valid(prog: Seq<TopModel>) -> bool {
    forall|i: int| 0 <= i < prog.len() ==> top_valid(#[trigger] prog[i])
}

} // verus!
