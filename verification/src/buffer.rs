//! The prompt buffer: an ordered collection of plugins that contribute
//! lines for the current path, and the full render that lays the header
//! line and every contributed line out as a diagram.

use vstd::prelude::*;
use vstd::seq_lib::*;
use crate::line::{views_of, LineView, PromptLine, PromptLineBuilder};
use crate::render::{header_view, layout, lemma_layout_nonempty, render_spec};

verus! {

/// The capability a content producer implements: given the current path,
/// contribute zero or more lines to the diagram.
///
/// An implementation must only append: the lines already present are kept,
/// in their order. Implementations outside this crate are trusted to meet
/// that contract.
pub trait PromptBufferPlugin {
    /// Appends this plugin's lines for `path` after the lines already
    /// present.
    fn run(&mut self, path: &String, lines: &mut Vec<PromptLine>)
        ensures
            views_of(old(lines)@).is_prefix_of(views_of(final(lines)@)),
    ;
}

/// Holds the registered plugins and the current path, and renders the
/// whole diagram on demand.
pub struct PromptBuffer<P: PromptBufferPlugin> {
    pub plugins: Vec<P>,
    pub path: String,
}

impl<P: PromptBufferPlugin> PromptBuffer<P> {
    /// An empty buffer: no plugins, the relative current directory as its
    /// path.
    pub fn new() -> (r: PromptBuffer<P>)
        ensures
            r.plugins@.len() == 0,
            r.path@ == seq!['.'],
    {
        proof {
            reveal_strlit(".");
            assert("."@ =~= seq!['.']);
        }
        PromptBuffer { plugins: Vec::new(), path: ".".to_owned() }
    }

    /// Pushes the fixed header line: working directory and host.
    pub fn start(&self, lines: &mut Vec<PromptLine>)
        ensures
            views_of(final(lines)@) == views_of(old(lines)@).push(header_view()),
    {
        let header = PromptLineBuilder::new().block("\\w").block("\\H").build();
        proof {
            reveal_strlit("\\w");
            reveal_strlit("\\H");
            assert("\\w"@ =~= seq!['\\', 'w']);
            assert("\\H"@ =~= seq!['\\', 'H']);
            assert(header@.parts =~= header_view().parts);
        }
        lines.push(header);
        proof {
            assert(views_of(lines@) =~= views_of(old(lines)@).push(header_view()));
        }
    }

    /// Registers one more plugin, after those already present.
    pub fn add_plugin(&mut self, plugin: P)
        ensures
            final(self).plugins@ == old(self).plugins@.push(plugin),
            final(self).path == old(self).path,
    {
        self.plugins.push(plugin);
    }

    /// Changes the path handed to the plugins on the next render.
    pub fn set_path(&mut self, p: String)
        ensures
            final(self).path == p,
            final(self).plugins == old(self).plugins,
    {
        self.path = p;
    }

    /// Renders the full diagram: the header line, then every plugin's
    /// contribution in registration order, laid out with the marker row.
    pub fn to_string(&mut self) -> (r: String)
        ensures
            exists|contributed: Seq<LineView>| r@ == render_spec(contributed),
            r@.len() > 0,
            old(self).plugins@.len() == 0 ==> r@ == render_spec(Seq::empty()),
            final(self).path == old(self).path,
            final(self).plugins@.len() == old(self).plugins@.len(),
    {
        let mut lines: Vec<PromptLine> = Vec::new();
        self.start(&mut lines);
        proof {
            assert(views_of(lines@) =~= seq![header_view()]);
        }

        let path = self.path.clone();
        let mut i: usize = 0;
        while i < self.plugins.len()
            invariant
                i <= self.plugins@.len(),
                self.plugins@.len() == old(self).plugins@.len(),
                self.path == old(self).path,
                path@ == old(self).path@,
                views_of(lines@).len() >= 1,
                views_of(lines@)[0] == header_view(),
                i == 0 ==> views_of(lines@) == seq![header_view()],
            decreases self.plugins@.len() - i,
        {
            let ghost before = views_of(lines@);
            self.plugins[i].run(&path, &mut lines);
            proof {
                let after = views_of(lines@);
                assert(before[0] == after.subrange(0, before.len() as int)[0]);
            }
            i = i + 1;
        }

        let ghost all = views_of(lines@);
        let ghost contributed = all.skip(1);
        proof {
            assert(all =~= seq![header_view()] + contributed);
            lemma_layout_nonempty(seq![header_view()] + contributed);
            if old(self).plugins@.len() == 0 {
                assert(contributed =~= Seq::<LineView>::empty());
                assert(seq![header_view()] + contributed =~= seq![
                    header_view(),
                ] + Seq::<LineView>::empty());
            }
        }
        let r = layout(&lines);
        proof {
            assert(r@ == render_spec(contributed));
        }
        r
    }

    /// The fast seed render: the header and the marker row only, with no
    /// plugin run.
    pub fn to_string_fast(&self) -> (r: String)
        ensures
            r@ == render_spec(Seq::empty()),
            r@.len() > 0,
    {
        let mut lines: Vec<PromptLine> = Vec::new();
        self.start(&mut lines);
        proof {
            assert(views_of(lines@) =~= seq![header_view()] + Seq::<LineView>::empty());
            lemma_layout_nonempty(seq![header_view()] + Seq::<LineView>::empty());
        }
        layout(&lines)
    }
}

} // verus!
