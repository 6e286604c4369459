//! The browsing-state snapshot that rules are evaluated against.

use vstd::prelude::*;
use vstd::string::StringExecFns;

verus! {

/// Mathematical model of a [`Context`]: every field as a plain spec value.
pub ghost struct ContextView {
    pub platform: Seq<char>,
    pub content_type: Seq<char>,
    pub scroll_depth: u32,
    pub session_duration: u32,
    pub recent_categories: Seq<Seq<char>>,
    pub timestamp: u64,
}

/// An immutable snapshot of observable browsing state at decision time.
pub struct Context {
    pub platform: String,
    pub content_type: String,
    pub scroll_depth: u32,
    /// Seconds elapsed in the current session.
    pub session_duration: u32,
    pub recent_categories: Vec<String>,
    pub timestamp: u64,
}

impl DeepView for Context {
    type V = ContextView;

    open spec fn deep_view(&self) -> ContextView {
        ContextView {
            platform: self.platform@,
            content_type: self.content_type@,
            scroll_depth: self.scroll_depth,
            session_duration: self.session_duration,
            recent_categories: self.recent_categories.deep_view(),
            timestamp: self.timestamp,
        }
    }
}

impl Context {
    /// A fresh snapshot for the given site and content category; every other
    /// field starts at its zero value.
    pub fn new(platform: &str, content_type: &str) -> (c: Context)
        ensures
            c.deep_view() == (ContextView {
                platform: platform@,
                content_type: content_type@,
                scroll_depth: 0,
                session_duration: 0,
                recent_categories: Seq::<Seq<char>>::empty(),
                timestamp: 0,
            }),
    {
        let c = Context {
            platform: String::from_str(platform),
            content_type: String::from_str(content_type),
            scroll_depth: 0,
            session_duration: 0,
            recent_categories: Vec::new(),
            timestamp: 0,
        };
        proof {
            assert(c.deep_view().recent_categories =~= Seq::<Seq<char>>::empty());
        }
        c
    }

    pub fn with_scroll_depth(self, depth: u32) -> (c: Context)
        ensures
            c.deep_view() == (ContextView { scroll_depth: depth, ..self.deep_view() }),
    {
        Context { scroll_depth: depth, ..self }
    }

    pub fn with_session_duration(self, duration: u32) -> (c: Context)
        ensures
            c.deep_view() == (ContextView { session_duration: duration, ..self.deep_view() }),
    {
        Context { session_duration: duration, ..self }
    }

    pub fn with_categories(self, categories: Vec<String>) -> (c: Context)
        ensures
            c.deep_view() == (ContextView {
                recent_categories: categories.deep_view(),
                ..self.deep_view()
            }),
    {
        Context { recent_categories: categories, ..self }
    }
}

} // verus!
