//! The scene-graph renderer: serialises evaluated scene values to a
//! nested-tag markup document while accumulating bounding boxes and
//! deferring binary image data to a side list of assets.

use vstd::prelude::*;
use vstd::string::{StrSliceExecFns, StringExecFns};
use crate::fixed::Fixed;
use crate::geom::{
    combine_bounds, combine_bounds_spec, transformed_box_bounds, transformed_box_bounds_spec,
    transform_point_spec, Affine, Rect, Vec2F,
};
use crate::scene::{Artboard, GraphicElement, GraphicElementData, GraphicGroup};
use crate::text::{dec_seq, fixed_dec_seq, fixed_to_string, i64_to_string, int_dec_seq, u64_to_string};
use crate::value::{Color, Image, ImageFrame, Subpath, VectorData};

verus! {

/// A piece of the markup output: borrowed text, owned text, or a
/// placeholder for a binary asset that the caller resolves later.
#[derive(Debug, Clone, PartialEq)]
pub enum SvgSegment {
    Slice(&'static str),
    Owned(String),
    BlobUrl(u64),
}

/// The characters a segment renders as; an unresolved asset renders as a
/// placeholder comment.
pub open spec fn seg_view(seg: SvgSegment) -> Seq<char> {
    match seg {
        SvgSegment::Slice(s) => s@,
        SvgSegment::Owned(s) => s@,
        SvgSegment::BlobUrl(_) => "<!-- Blob url not yet loaded -->"@,
    }
}

/// The characters a segment list renders as.
pub open spec fn list_view(s: Seq<SvgSegment>) -> Seq<char>
    decreases s.len(),
{
    if s.len() == 0 {
        Seq::empty()
    } else {
        list_view(s.drop_last()) + seg_view(s.last())
    }
}

/// An ordered list of markup segments.
#[derive(Debug)]
pub struct SvgSegmentList {
    pub segments: Vec<SvgSegment>,
}

impl SvgSegmentList {
    pub fn new() -> (r: Self)
        ensures
            r.segments@ =~= Seq::<SvgSegment>::empty(),
    {
        SvgSegmentList { segments: Vec::new() }
    }

    pub fn len(&self) -> (r: usize)
        ensures
            r == self.segments@.len(),
    {
        self.segments.len()
    }

    /// Appends one segment.
    pub fn push(&mut self, value: SvgSegment)
        ensures
            final(self).segments@ == old(self).segments@.push(value),
    {
        self.segments.push(value);
    }

    /// Removes and discards the last segment.
    pub fn pop(&mut self)
        requires
            old(self).segments@.len() > 0,
        ensures
            final(self).segments@ == old(self).segments@.drop_last(),
    {
        let _ = self.segments.pop();
        proof {
            assert(final(self).segments@ =~= old(self).segments@.drop_last());
        }
    }

    /// Renders the list as one string; unresolved assets render as
    /// placeholder comments.
    pub fn to_svg_string(&self) -> (r: String)
        ensures
            r@ == list_view(self.segments@),
    {
        let mut out = String::new();
        let n = self.segments.len();
        let mut i: usize = 0;
        while i < n
            invariant
                i <= n,
                n == self.segments@.len(),
                out@ == list_view(self.segments@.take(i as int)),
            decreases n - i,
        {
            match &self.segments[i] {
                SvgSegment::Slice(s) => {
                    out.append(s);
                },
                SvgSegment::Owned(s) => {
                    out.append(s.as_str());
                },
                SvgSegment::BlobUrl(_) => {
                    out.append("<!-- Blob url not yet loaded -->");
                },
            }
            proof {
                let pre = self.segments@.take(i as int);
                let post = self.segments@.take(i as int + 1);
                assert(post.drop_last() =~= pre);
                assert(post.last() == self.segments@[i as int]);
            }
            i = i + 1;
        }
        proof {
            assert(self.segments@.take(n as int) =~= self.segments@);
        }
        out
    }
}

/// How the scene is being viewed; outline and pixel modes change style
/// resolution in the editor shell.
#[derive(Debug, Clone, Copy, PartialEq, Eq, Structural, Hash)]
pub enum ViewMode {
    Normal,
    Outline,
    Pixels,
}

/// Static parameters of one render pass.
#[derive(Debug, Clone, Copy, PartialEq, Eq, Structural, Hash)]
pub struct RenderParams {
    pub view_mode: ViewMode,
    pub culling_bounds: Option<Rect>,
    pub thumbnail: bool,
}

impl RenderParams {
    pub fn new(view_mode: ViewMode, culling_bounds: Option<Rect>, thumbnail: bool) -> (r: Self)
        ensures
            r == (RenderParams { view_mode, culling_bounds, thumbnail }),
    {
        RenderParams { view_mode, culling_bounds, thumbnail }
    }
}

/// `n` tab characters.
pub open spec fn tabs_seq(n: nat) -> Seq<char>
    decreases n,
{
    if n == 0 {
        Seq::empty()
    } else {
        tabs_seq((n - 1) as nat) + "\t"@
    }
}

/// The markup text of the six transform components, comma separated.
pub open spec fn matrix_body_seq(t: Affine) -> Seq<char> {
    fixed_dec_seq(t.a.micros as int) + ", "@ + fixed_dec_seq(t.b.micros as int) + ", "@
        + fixed_dec_seq(t.c.micros as int) + ", "@ + fixed_dec_seq(t.d.micros as int) + ", "@
        + fixed_dec_seq(t.e.micros as int) + ", "@ + fixed_dec_seq(t.f.micros as int)
}

/// Renders an affine transform as a markup `matrix(..)` value.
pub fn format_transform_matrix(transform: Affine) -> (r: String)
    ensures
        r@ == "matrix("@ + matrix_body_seq(transform) + ")"@,
{
    let mut s = String::from_str("matrix(");
    s.append(fixed_to_string(transform.a).as_str());
    s.append(", ");
    s.append(fixed_to_string(transform.b).as_str());
    s.append(", ");
    s.append(fixed_to_string(transform.c).as_str());
    s.append(", ");
    s.append(fixed_to_string(transform.d).as_str());
    s.append(", ");
    s.append(fixed_to_string(transform.e).as_str());
    s.append(", ");
    s.append(fixed_to_string(transform.f).as_str());
    s.append(")");
    s
}

/// Mutable state of one render pass: the markup built so far, the shared
/// definitions block, the accumulated transform, the deferred image assets,
/// the indentation depth, and the source of fresh asset identifiers.
#[derive(Debug)]
pub struct SvgRender {
    pub svg: SvgSegmentList,
    pub svg_defs: String,
    pub transform: Affine,
    pub image_data: Vec<(u64, Image)>,
    pub indent: usize,
    pub next_id: u64,
}

impl SvgRender {
    pub fn new() -> (r: Self)
        ensures
            r.svg.segments@ =~= Seq::<SvgSegment>::empty(),
            r.svg_defs@ =~= Seq::<char>::empty(),
            r.transform == crate::value::identity_affine_spec(),
            r.image_data@ =~= Seq::<(u64, Image)>::empty(),
            r.indent_depth() == 0,
            r.indent == 0,
            r.next_id == 0,
    {
        SvgRender {
            svg: SvgSegmentList::new(),
            svg_defs: String::new(),
            transform: Affine::identity(),
            image_data: Vec::new(),
            indent: 0,
            next_id: 0,
        }
    }

    /// The current indentation depth.
    pub open spec fn indent_depth(self) -> nat {
        self.indent as nat
    }

    /// The next fresh asset identifier.
    pub open spec fn next_asset_id(self) -> u64 {
        self.next_id
    }

    /// Draws a fresh asset identifier; each call returns a larger value than
    /// every earlier one, so identifiers within a render pass are unique.
    fn fresh_id(&mut self) -> (r: u64)
        requires
            old(self).next_id < u64::MAX,
        ensures
            r == old(self).next_id,
            final(self).next_id == old(self).next_id + 1,
            final(self).svg == old(self).svg,
            final(self).svg_defs == old(self).svg_defs,
            final(self).transform == old(self).transform,
            final(self).image_data == old(self).image_data,
            final(self).indent == old(self).indent,
    {
        let id = self.next_id;
        self.next_id = self.next_id + 1;
        id
    }

    /// Starts a new line at the current indentation.
    pub fn indent_line(&mut self)
        ensures
            final(self).svg.segments@.len() == old(self).svg.segments@.len() + 2,
            final(self).svg.segments@.drop_last() == old(self).svg.segments@.push(
                SvgSegment::Slice("\n"),
            ),
            seg_view(final(self).svg.segments@.last()) == tabs_seq(old(self).indent_depth()),
            final(self).svg_defs == old(self).svg_defs,
            final(self).transform == old(self).transform,
            final(self).image_data == old(self).image_data,
            final(self).indent == old(self).indent,
            final(self).next_id == old(self).next_id,
    {
        self.svg.push(SvgSegment::Slice("\n"));
        let n = self.indent;
        let mut tabs = String::new();
        let mut i: usize = 0;
        while i < n
            invariant
                i <= n,
                tabs@ == tabs_seq(i as nat),
            decreases n - i,
        {
            tabs.append("\t");
            i = i + 1;
        }
        self.svg.push(SvgSegment::Owned(tabs));
    }
}

/// One attribute of a markup tag.
#[derive(Debug)]
pub struct SvgAttr {
    pub name: &'static str,
    pub value: SvgSegment,
}

/// The characters one attribute renders as.
pub open spec fn attr_view(a: SvgAttr) -> Seq<char> {
    " "@ + a.name@ + "=\""@ + seg_view(a.value) + "\""@
}

/// The characters an attribute list renders as.
pub open spec fn attrs_view(s: Seq<SvgAttr>) -> Seq<char>
    decreases s.len(),
{
    if s.len() == 0 {
        Seq::empty()
    } else {
        attrs_view(s.drop_last()) + attr_view(s.last())
    }
}

/// Prefix preservation is transitive.
pub proof fn lemma_prefix_trans<T>(a: Seq<T>, b: Seq<T>, c: Seq<T>)
    requires
        a.len() <= b.len(),
        b.len() <= c.len(),
        b.take(a.len() as int) == a,
        c.take(b.len() as int) == b,
    ensures
        c.take(a.len() as int) == a,
{
    assert forall|i: int| 0 <= i < a.len() implies c.take(a.len() as int)[i] == a[i] by {
        assert(c.take(a.len() as int)[i] == c[i]);
        assert(c.take(b.len() as int)[i] == c[i]);
        assert(b.take(a.len() as int)[i] == b[i]);
    }
    assert(c.take(a.len() as int) =~= a);
}

/// Appending one segment appends its view.
pub proof fn lemma_list_view_push(s: Seq<SvgSegment>, x: SvgSegment)
    ensures
        list_view(s.push(x)) == list_view(s) + seg_view(x),
{
    assert(s.push(x).drop_last() =~= s);
    assert(s.push(x).last() == x);
}

impl SvgRender {
    /// Appends the attribute text `name="value"` for every attribute.
    fn push_attrs(&mut self, attrs: Vec<SvgAttr>)
        ensures
            list_view(final(self).svg.segments@) == list_view(old(self).svg.segments@)
                + attrs_view(attrs@),
            forall|k: int|
                0 <= k < attrs@.len() ==> exists|p: int|
                    old(self).svg.segments@.len() <= p < final(self).svg.segments@.len()
                        && final(self).svg.segments@[p] == (#[trigger] attrs@[k]).value,
            final(self).svg.segments@.len() >= old(self).svg.segments@.len(),
            final(self).svg.segments@.take(old(self).svg.segments@.len() as int) == old(
                self,
            ).svg.segments@,
            final(self).svg_defs == old(self).svg_defs,
            final(self).transform == old(self).transform,
            final(self).image_data == old(self).image_data,
            final(self).indent == old(self).indent,
            final(self).next_id == old(self).next_id,
    {
        let mut attrs = attrs;
        let n = attrs.len();
        let ghost attrs_seq = attrs@;
        let ghost base = self.svg.segments@;
        let mut i: usize = 0;
        while i < n
            invariant
                i <= n,
                n == attrs_seq.len(),
                attrs@ =~= attrs_seq.skip(i as int),
                list_view(self.svg.segments@) == list_view(base) + attrs_view(
                    attrs_seq.take(i as int),
                ),
                forall|k: int|
                    0 <= k < i ==> exists|p: int|
                        base.len() <= p < self.svg.segments@.len() && self.svg.segments@[p] == (
                        #[trigger] attrs_seq[k]).value,
                self.svg.segments@.len() >= base.len(),
                self.svg.segments@.take(base.len() as int) == base,
                self.svg_defs == old(self).svg_defs,
                self.transform == old(self).transform,
                self.image_data == old(self).image_data,
                self.indent == old(self).indent,
                self.next_id == old(self).next_id,
            decreases n - i,
        {
            let ghost before = self.svg.segments@;
            let attr = attrs.remove(0);
            let ghost a = attr;
            self.svg.push(SvgSegment::Slice(" "));
            self.svg.push(SvgSegment::Slice(attr.name));
            self.svg.push(SvgSegment::Slice("=\""));
            self.svg.push(attr.value);
            self.svg.push(SvgSegment::Slice("\""));
            proof {
                let s0 = before;
                let s1 = s0.push(SvgSegment::Slice(" "));
                let s2 = s1.push(SvgSegment::Slice(a.name));
                let s3 = s2.push(SvgSegment::Slice("=\""));
                let s4 = s3.push(a.value);
                let s5 = s4.push(SvgSegment::Slice("\""));
                lemma_list_view_push(s0, SvgSegment::Slice(" "));
                lemma_list_view_push(s1, SvgSegment::Slice(a.name));
                lemma_list_view_push(s2, SvgSegment::Slice("=\""));
                lemma_list_view_push(s3, a.value);
                lemma_list_view_push(s4, SvgSegment::Slice("\""));
                reveal_strlit(" ");
                reveal_strlit("=\"");
                reveal_strlit("\"");
                assert(list_view(s5) =~= list_view(s0) + attr_view(a));
                assert(attrs_seq.take(i as int + 1).drop_last() =~= attrs_seq.take(i as int));
                assert(attrs_seq.take(i as int + 1).last() == attrs_seq[i as int]);
                assert(attrs_seq[i as int] == a);
                assert(list_view(self.svg.segments@) =~= list_view(base) + attrs_view(
                    attrs_seq.take(i as int + 1),
                ));
                assert(self.svg.segments@.take(base.len() as int) =~= base);
                assert(attrs@ =~= attrs_seq.skip(i as int + 1));
                assert(s4[s3.len() as int] == a.value);
                assert(self.svg.segments@[s3.len() as int] == a.value);
                assert forall|k: int|
                    0 <= k < i + 1 implies exists|p: int|
                        base.len() <= p < self.svg.segments@.len() && self.svg.segments@[p] == (
                    #[trigger] attrs_seq[k]).value by {
                    if k < i {
                        let p = choose|p: int|
                            base.len() <= p < s0.len() && s0[p] == attrs_seq[k].value;
                        assert(self.svg.segments@[p] == s0[p]);
                    } else {
                        assert(self.svg.segments@[s3.len() as int] == attrs_seq[k].value);
                    }
                }
            }
            i = i + 1;
        }
        proof {
            assert(attrs_seq.take(n as int) =~= attrs_seq);
        }
    }

    /// Emits a self-closing tag with the given attributes on its own line.
    pub fn leaf_tag(&mut self, name: &'static str, attrs: Vec<SvgAttr>)
        ensures
            list_view(final(self).svg.segments@) == list_view(old(self).svg.segments@) + "\n"@
                + tabs_seq(old(self).indent_depth()) + "<"@ + name@ + attrs_view(attrs@) + "/>"@,
            forall|k: int|
                0 <= k < attrs@.len() ==> exists|p: int|
                    old(self).svg.segments@.len() <= p < final(self).svg.segments@.len()
                        && final(self).svg.segments@[p] == (#[trigger] attrs@[k]).value,
            final(self).svg.segments@.len() >= old(self).svg.segments@.len(),
            final(self).svg.segments@.take(old(self).svg.segments@.len() as int) == old(
                self,
            ).svg.segments@,
            final(self).svg_defs == old(self).svg_defs,
            final(self).transform == old(self).transform,
            final(self).image_data == old(self).image_data,
            final(self).indent == old(self).indent,
            final(self).next_id == old(self).next_id,
    {
        let ghost s0 = self.svg.segments@;
        self.indent_line();
        let ghost s1 = self.svg.segments@;
        proof {
            lemma_list_view_push(s1.drop_last().drop_last(), SvgSegment::Slice("\n"));
            lemma_list_view_push(s1.drop_last(), s1.last());
            assert(s1.drop_last().drop_last() =~= s0);
            assert(list_view(s1) =~= list_view(s0) + "\n"@ + tabs_seq(old(self).indent_depth()));
            assert(s1.take(s0.len() as int) =~= s0);
        }
        self.svg.push(SvgSegment::Slice("<"));
        self.svg.push(SvgSegment::Slice(name));
        let ghost s2 = self.svg.segments@;
        proof {
            lemma_list_view_push(s1, SvgSegment::Slice("<"));
            lemma_list_view_push(s1.push(SvgSegment::Slice("<")), SvgSegment::Slice(name));
            reveal_strlit("<");
            assert(list_view(s2) =~= list_view(s0) + "\n"@ + tabs_seq(old(self).indent_depth())
                + "<"@ + name@);
            assert(s2.take(s0.len() as int) =~= s0);
        }
        self.push_attrs(attrs);
        let ghost s3 = self.svg.segments@;
        self.svg.push(SvgSegment::Slice("/>"));
        proof {
            lemma_list_view_push(s3, SvgSegment::Slice("/>"));
            reveal_strlit("/>");
            assert(list_view(final(self).svg.segments@) =~= list_view(old(self).svg.segments@)
                + "\n"@ + tabs_seq(old(self).indent_depth()) + "<"@ + name@ + attrs_view(attrs@)
                + "/>"@);
            assert(s3.take(s2.len() as int) == s2);
            assert(final(self).svg.segments@.take(s0.len() as int) =~= s0);
            assert forall|k: int|
                0 <= k < attrs@.len() implies exists|p: int|
                    s0.len() <= p < final(self).svg.segments@.len() && final(
                self).svg.segments@[p] == (#[trigger] attrs@[k]).value by {
                let p = choose|p: int|
                    s2.len() <= p < s3.len() && s3[p] == attrs@[k].value;
                assert(final(self).svg.segments@[p] == s3[p]);
            }
        }
    }

    /// Opens a tag with attributes and returns the segment count to hand to
    /// [`SvgRender::parent_tag_close`]. Children are rendered in between,
    /// one indentation level deeper.
    pub fn parent_tag_open(&mut self, name: &'static str, attrs: Vec<SvgAttr>) -> (mark: usize)
        requires
            old(self).indent < usize::MAX,
        ensures
            list_view(final(self).svg.segments@) == list_view(old(self).svg.segments@) + "\n"@
                + tabs_seq(old(self).indent_depth()) + "<"@ + name@ + attrs_view(attrs@) + ">"@,
            final(self).svg.segments@.len() >= old(self).svg.segments@.len() + 1,
            final(self).svg.segments@.take(old(self).svg.segments@.len() as int) == old(
                self,
            ).svg.segments@,
            mark == final(self).svg.segments@.len(),
            final(self).svg.segments@.last() == SvgSegment::Slice(">"),
            final(self).svg_defs == old(self).svg_defs,
            final(self).transform == old(self).transform,
            final(self).image_data == old(self).image_data,
            final(self).indent == old(self).indent + 1,
            final(self).next_id == old(self).next_id,
    {
        let ghost s0 = self.svg.segments@;
        self.indent_line();
        let ghost s1 = self.svg.segments@;
        proof {
            lemma_list_view_push(s1.drop_last().drop_last(), SvgSegment::Slice("\n"));
            lemma_list_view_push(s1.drop_last(), s1.last());
            assert(s1.drop_last().drop_last() =~= s0);
            assert(list_view(s1) =~= list_view(s0) + "\n"@ + tabs_seq(old(self).indent_depth()));
            assert(s1.take(s0.len() as int) =~= s0);
        }
        self.svg.push(SvgSegment::Slice("<"));
        self.svg.push(SvgSegment::Slice(name));
        let ghost s2 = self.svg.segments@;
        proof {
            lemma_list_view_push(s1, SvgSegment::Slice("<"));
            lemma_list_view_push(s1.push(SvgSegment::Slice("<")), SvgSegment::Slice(name));
            reveal_strlit("<");
            assert(list_view(s2) =~= list_view(s0) + "\n"@ + tabs_seq(old(self).indent_depth())
                + "<"@ + name@);
            assert(s2.take(s0.len() as int) =~= s0);
        }
        self.push_attrs(attrs);
        let ghost s3 = self.svg.segments@;
        self.svg.push(SvgSegment::Slice(">"));
        proof {
            lemma_list_view_push(s3, SvgSegment::Slice(">"));
            reveal_strlit(">");
            assert(list_view(self.svg.segments@) =~= list_view(old(self).svg.segments@)
                + "\n"@ + tabs_seq(old(self).indent_depth()) + "<"@ + name@ + attrs_view(attrs@)
                + ">"@);
            assert(s3.take(s2.len() as int) == s2);
            assert(self.svg.segments@.take(s0.len() as int) =~= s0);
        }
        self.indent = self.indent + 1;
        self.svg.len()
    }

    /// Closes the tag opened at `mark`. When nothing was rendered in
    /// between, the matched pair collapses to a self-closing empty tag: the
    /// opening `>` is replaced by `/>` and no closing tag is written.
    pub fn parent_tag_close(&mut self, name: &'static str, mark: usize)
        requires
            mark >= 1,
            old(self).svg.segments@.len() >= mark,
            old(self).indent >= 1,
        ensures
            final(self).svg.segments@.len() >= old(self).svg.segments@.len(),
            old(self).svg.segments@.len() == mark ==> final(self).svg.segments@ == old(
                self,
            ).svg.segments@.drop_last().push(SvgSegment::Slice("/>")),
            old(self).svg.segments@.len() > mark ==> ({
                &&& list_view(final(self).svg.segments@) == list_view(old(self).svg.segments@)
                    + "\n"@ + tabs_seq(final(self).indent_depth()) + "</"@ + name@ + ">"@
                &&& final(self).svg.segments@.take(old(self).svg.segments@.len() as int) == old(
                    self,
                ).svg.segments@
            }),
            final(self).svg_defs == old(self).svg_defs,
            final(self).transform == old(self).transform,
            final(self).image_data == old(self).image_data,
            final(self).indent == old(self).indent - 1,
            final(self).next_id == old(self).next_id,
    {
        self.indent = self.indent - 1;
        if self.svg.len() != mark {
            let ghost s0 = self.svg.segments@;
            self.indent_line();
            let ghost s1 = self.svg.segments@;
            proof {
                lemma_list_view_push(s1.drop_last().drop_last(), SvgSegment::Slice("\n"));
                lemma_list_view_push(s1.drop_last(), s1.last());
                assert(s1.drop_last().drop_last() =~= s0);
                assert(list_view(s1) =~= list_view(s0) + "\n"@ + tabs_seq(self.indent_depth()));
                assert(s1.take(s0.len() as int) =~= s0);
            }
            self.svg.push(SvgSegment::Slice("</"));
            self.svg.push(SvgSegment::Slice(name));
            self.svg.push(SvgSegment::Slice(">"));
            proof {
                lemma_list_view_push(s1, SvgSegment::Slice("</"));
                lemma_list_view_push(s1.push(SvgSegment::Slice("</")), SvgSegment::Slice(name));
                lemma_list_view_push(
                    s1.push(SvgSegment::Slice("</")).push(SvgSegment::Slice(name)),
                    SvgSegment::Slice(">"),
                );
                reveal_strlit("</");
                reveal_strlit(">");
                assert(list_view(final(self).svg.segments@) =~= list_view(s0) + "\n"@ + tabs_seq(
                    final(self).indent_depth(),
                ) + "</"@ + name@ + ">"@);
                assert(final(self).svg.segments@.take(s0.len() as int) =~= s0);
            }
        } else {
            self.svg.pop();
            self.svg.push(SvgSegment::Slice("/>"));
        }
    }
}

/// The merge of two optional bounding boxes: their union when both exist.
pub open spec fn merge_bounds(a: Option<Rect>, b: Option<Rect>) -> Option<Rect> {
    match (a, b) {
        (Option::Some(x), Option::Some(y)) => Option::Some(combine_bounds_spec(x, y)),
        (Option::Some(x), Option::None) => Option::Some(x),
        (Option::None, Option::Some(y)) => Option::Some(y),
        (Option::None, Option::None) => Option::<Rect>::None,
    }
}

/// Executable merge of optional bounding boxes.
pub fn merge_bounds_exec(a: Option<Rect>, b: Option<Rect>) -> (r: Option<Rect>)
    ensures
        r == merge_bounds(a, b),
{
    match (a, b) {
        (Option::Some(x), Option::Some(y)) => Option::Some(combine_bounds(x, y)),
        (Option::Some(x), Option::None) => Option::Some(x),
        (Option::None, Option::Some(y)) => Option::Some(y),
        (Option::None, Option::None) => Option::None,
    }
}

/// Bounding box of one point: the degenerate rectangle at its image.
pub open spec fn point_bounds_spec(t: Affine, p: Vec2F) -> Rect {
    let q = transform_point_spec(t, p);
    Rect { min: q, max: q }
}

/// Bounding box of a run of points under a transform.
pub open spec fn points_bbox(points: Seq<Vec2F>, t: Affine) -> Option<Rect>
    decreases points.len(),
{
    if points.len() == 0 {
        Option::<Rect>::None
    } else {
        merge_bounds(points_bbox(points.drop_last(), t), Option::Some(
            point_bounds_spec(t, points.last()),
        ))
    }
}

/// Bounding box of a list of subpaths under a transform.
pub open spec fn subpaths_bbox(subpaths: Seq<Subpath>, t: Affine) -> Option<Rect>
    decreases subpaths.len(),
{
    if subpaths.len() == 0 {
        Option::<Rect>::None
    } else {
        merge_bounds(
            subpaths_bbox(subpaths.drop_last(), t),
            points_bbox(subpaths.last().points@, t),
        )
    }
}

/// Bounding box of vector data: its anchor points under its own transform
/// composed onto the accumulated transform.
pub open spec fn vector_bbox_spec(v: VectorData, t: Affine) -> Option<Rect> {
    subpaths_bbox(v.subpaths@, v.transform.compose_spec(t))
}

/// Bounding box of an image frame: the unit square under the frame's
/// transform composed onto the accumulated transform, or nothing when the
/// composed linear part is zero and the whole plane collapses to one point.
pub open spec fn image_frame_bbox_spec(frame: ImageFrame, t: Affine) -> Option<Rect> {
    let composed = frame.transform.compose_spec(t);
    if composed.linear_is_zero() {
        Option::<Rect>::None
    } else {
        Option::Some(
            transformed_box_bounds_spec(
                composed,
                Vec2F { x: Fixed { micros: 0 }, y: Fixed { micros: 0 } },
                Vec2F { x: Fixed { micros: 1000000 }, y: Fixed { micros: 1000000 } },
            ),
        )
    }
}

/// The artboard's own rectangle under the accumulated transform.
pub open spec fn artboard_rect_bounds_spec(a: Artboard, t: Affine) -> Rect {
    let corner1 = Vec2F {
        x: Fixed { micros: crate::fixed::sat_i64(a.location.x * 1000000) as i64 },
        y: Fixed { micros: crate::fixed::sat_i64(a.location.y * 1000000) as i64 },
    };
    let corner2 = Vec2F {
        x: Fixed {
            micros: crate::fixed::sat_i64((a.location.x + a.dimensions.x) * 1000000) as i64,
        },
        y: Fixed {
            micros: crate::fixed::sat_i64((a.location.y + a.dimensions.y) * 1000000) as i64,
        },
    };
    transformed_box_bounds_spec(t, corner1, corner2)
}

/// Bounding box of a scene value under an accumulated transform: a group is
/// the union of its children's boxes, an artboard adds its own rectangle,
/// and reserved text contributes nothing.
pub open spec fn bounding_box_spec(data: GraphicElementData, t: Affine) -> Option<Rect>
    decreases data,
{
    match data {
        GraphicElementData::VectorShape(v) => vector_bbox_spec(*v, t),
        GraphicElementData::ImageFrame(frame) => image_frame_bbox_spec(frame, t),
        GraphicElementData::Text(_) => Option::<Rect>::None,
        GraphicElementData::GraphicGroup(g) => group_bbox_spec(g.elements@, t),
        GraphicElementData::Artboard(a) => merge_bounds(
            group_bbox_spec(a.graphic_group.elements@, t),
            Option::Some(artboard_rect_bounds_spec(*a, t)),
        ),
    }
}

/// Bounding box of a sequence of scene elements: the union of the children's
/// boxes, or nothing when there are none.
pub open spec fn group_bbox_spec(elems: Seq<GraphicElement>, t: Affine) -> Option<Rect>
    decreases elems,
{
    if elems.len() == 0 {
        Option::<Rect>::None
    } else {
        merge_bounds(
            group_bbox_spec(elems.drop_last(), t),
            bounding_box_spec(elems.last().graphic_element_data, t),
        )
    }
}

/// No reserved text value occurs anywhere in the scene value.
pub open spec fn renderable(data: GraphicElementData) -> bool
    decreases data,
{
    match data {
        GraphicElementData::Text(_) => false,
        GraphicElementData::GraphicGroup(g) => renderable_elems(g.elements@),
        GraphicElementData::Artboard(a) => renderable_elems(a.graphic_group.elements@),
        _ => true,
    }
}

/// No reserved text value occurs in any of the elements.
pub open spec fn renderable_elems(elems: Seq<GraphicElement>) -> bool
    decreases elems,
{
    forall|i: int|
        0 <= i < elems.len() ==> renderable(#[trigger] elems[i].graphic_element_data)
}

/// Computes the axis-aligned bounding box of a scene value under the given
/// accumulated transform. Text values are reserved and not yet supported.
pub fn bounding_box(data: &GraphicElementData, transform: Affine) -> (r: Option<Rect>)
    requires
        renderable(*data),
    ensures
        r == bounding_box_spec(*data, transform),
    decreases *data,
{
    match data {
        GraphicElementData::VectorShape(v) => {
            let composed = v.transform.compose(transform);
            let n = v.subpaths.len();
            let mut acc: Option<Rect> = Option::None;
            let mut i: usize = 0;
            while i < n
                invariant
                    i <= n,
                    n == v.subpaths@.len(),
                    acc == subpaths_bbox(v.subpaths@.take(i as int), composed),
                    composed == v.transform.compose_spec(transform),
                decreases n - i,
            {
                let pts = &v.subpaths[i].points;
                let m = pts.len();
                let mut pacc: Option<Rect> = Option::None;
                let mut j: usize = 0;
                while j < m
                    invariant
                        j <= m,
                        m == pts@.len(),
                        pacc == points_bbox(pts@.take(j as int), composed),
                    decreases m - j,
                {
                    let q = composed.transform_point(pts[j]);
                    pacc = merge_bounds_exec(pacc, Option::Some(Rect { min: q, max: q }));
                    proof {
                        let pre = pts@.take(j as int);
                        let post = pts@.take(j as int + 1);
                        assert(post.drop_last() =~= pre);
                        assert(post.last() == pts@[j as int]);
                    }
                    j = j + 1;
                }
                proof {
                    assert(pts@.take(m as int) =~= pts@);
                    let pre = v.subpaths@.take(i as int);
                    let post = v.subpaths@.take(i as int + 1);
                    assert(post.drop_last() =~= pre);
                    assert(post.last() == v.subpaths@[i as int]);
                }
                acc = merge_bounds_exec(acc, pacc);
                i = i + 1;
            }
            proof {
                assert(v.subpaths@.take(n as int) =~= v.subpaths@);
            }
            acc
        },
        GraphicElementData::ImageFrame(frame) => {
            let composed = frame.transform.compose(transform);
            if composed.linear_zero() {
                Option::None
            } else {
                Option::Some(
                    transformed_box_bounds(
                        composed,
                        Vec2F { x: Fixed::zero(), y: Fixed::zero() },
                        Vec2F { x: Fixed::one(), y: Fixed::one() },
                    ),
                )
            }
        },
        GraphicElementData::Text(_) => {
            proof {
                assert(false);
            }
            Option::None
        },
        GraphicElementData::GraphicGroup(g) => {
            group_bounding_box(&g.elements, transform)
        },
        GraphicElementData::Artboard(a) => {
            let group = group_bounding_box(&a.graphic_group.elements, transform);
            let c1x = Fixed::from_int(a.location.x);
            let c1y = Fixed::from_int(a.location.y);
            let c2x = Fixed::from_micros(
                saturating_scale(a.location.x as i64 + a.dimensions.x as i64),
            );
            let c2y = Fixed::from_micros(
                saturating_scale(a.location.y as i64 + a.dimensions.y as i64),
            );
            let own = transformed_box_bounds(
                transform,
                Vec2F { x: c1x, y: c1y },
                Vec2F { x: c2x, y: c2y },
            );
            merge_bounds_exec(group, Option::Some(own))
        },
    }
}

/// Scales a small integer into micro-units, saturating at the extremes.
fn saturating_scale(v: i64) -> (r: i64)
    requires
        -0x1_0000_0000 <= v <= 0x1_0000_0000,
    ensures
        r == crate::fixed::sat_i64(v * 1000000),
{
    v * 1000000
}

/// Bounding box of the elements of a group.
pub fn group_bounding_box(elems: &Vec<GraphicElement>, transform: Affine) -> (r: Option<Rect>)
    requires
        renderable_elems(elems@),
    ensures
        r == group_bbox_spec(elems@, transform),
    decreases *elems,
{
    let n = elems.len();
    let mut acc: Option<Rect> = Option::None;
    let mut i: usize = 0;
    while i < n
        invariant
            i <= n,
            n == elems@.len(),
            renderable_elems(elems@),
            acc == group_bbox_spec(elems@.take(i as int), transform),
        decreases n - i,
    {
        let child = bounding_box(&elems[i].graphic_element_data, transform);
        acc = merge_bounds_exec(acc, child);
        proof {
            let pre = elems@.take(i as int);
            let post = elems@.take(i as int + 1);
            assert(post.drop_last() =~= pre);
            assert(post.last() == elems@[i as int]);
        }
        i = i + 1;
    }
    proof {
        assert(elems@.take(n as int) =~= elems@);
    }
    acc
}

/// The text of one attribute: a space, the name, and the quoted value.
pub open spec fn attr_text(name: Seq<char>, value: Seq<char>) -> Seq<char> {
    " "@ + name + "=\""@ + value + "\""@
}

/// A self-closing element on its own line at the given depth.
pub open spec fn leaf_text(indent: nat, name: Seq<char>, attrs: Seq<char>) -> Seq<char> {
    "\n"@ + tabs_seq(indent) + "<"@ + name + attrs + "/>"@
}

/// An opening tag on its own line at the given depth.
pub open spec fn open_text(indent: nat, name: Seq<char>, attrs: Seq<char>) -> Seq<char> {
    "\n"@ + tabs_seq(indent) + "<"@ + name + attrs + ">"@
}

/// A closing tag on its own line at the given depth.
pub open spec fn close_text(indent: nat, name: Seq<char>) -> Seq<char> {
    "\n"@ + tabs_seq(indent) + "</"@ + name + ">"@
}

/// Path data of a run of points under a transform: a move to the first
/// point and a line to each further point.
pub open spec fn points_d_text(points: Seq<Vec2F>, t: Affine) -> Seq<char>
    decreases points.len(),
{
    if points.len() == 0 {
        Seq::empty()
    } else {
        let q = transform_point_spec(t, points.last());
        points_d_text(points.drop_last(), t) + (if points.len() == 1 {
            "M "@
        } else {
            " L "@
        }) + fixed_dec_seq(q.x.micros as int) + ","@ + fixed_dec_seq(q.y.micros as int)
    }
}

/// Path data of one subpath: its points, and a close command when closed.
pub open spec fn subpath_d_text(points: Seq<Vec2F>, closed: bool, t: Affine) -> Seq<char> {
    points_d_text(points, t) + (if closed && points.len() > 0 {
        " Z"@
    } else {
        Seq::<char>::empty()
    })
}

/// Path data of a subpath list: the subpaths' data, concatenated.
pub open spec fn path_d_text(subpaths: Seq<Subpath>, t: Affine) -> Seq<char>
    decreases subpaths.len(),
{
    if subpaths.len() == 0 {
        Seq::empty()
    } else {
        path_d_text(subpaths.drop_last(), t) + subpath_d_text(
            subpaths.last().points@,
            subpaths.last().closed,
            t,
        )
    }
}

/// A paint value: a hex colour or the word `none`.
pub open spec fn color_value_text(c: Option<Color>) -> Seq<char> {
    match c {
        Option::Some(col) => "#"@ + col.rgba_hex_spec(),
        Option::None => "none"@,
    }
}

/// The stroke attributes of a path, empty when it has no stroke.
pub open spec fn stroke_attrs_text(stroke: Option<crate::value::Stroke>) -> Seq<char> {
    match stroke {
        Option::Some(st) => attr_text("stroke"@, color_value_text(st.color)) + attr_text(
            "stroke-width"@,
            fixed_dec_seq(st.weight.micros as int),
        ),
        Option::None => Seq::empty(),
    }
}

/// The markup a vector shape renders as: one path element whose data is the
/// shape's subpaths under its local transform composed onto the accumulated
/// one, with its fill and stroke.
pub open spec fn vector_shape_text(v: VectorData, t: Affine, indent: nat) -> Seq<char> {
    leaf_text(
        indent,
        "path"@,
        attr_text("class"@, "vector-data"@) + attr_text(
            "d"@,
            path_d_text(v.subpaths@, v.transform.compose_spec(t)),
        ) + attr_text("fill"@, color_value_text(v.style.fill)) + stroke_attrs_text(v.style.stroke),
    )
}

/// The markup an image frame renders as: a unit-square image placement
/// under the composed transform, referencing a deferred asset.
pub open spec fn image_frame_text(frame: ImageFrame, t: Affine, indent: nat) -> Seq<char> {
    leaf_text(
        indent,
        "image"@,
        attr_text("width"@, "1"@) + attr_text("height"@, "1"@) + attr_text(
            "preserveAspectRatio"@,
            "none"@,
        ) + attr_text(
            "transform"@,
            "matrix("@ + matrix_body_seq(frame.transform.compose_spec(t)) + ")"@,
        ) + attr_text("href"@, "<!-- Blob url not yet loaded -->"@),
    )
}

/// The smaller x corner of the artboard rectangle.
pub open spec fn artboard_min_x(a: Artboard) -> int {
    if a.location.x <= a.location.x + a.dimensions.x {
        a.location.x as int
    } else {
        a.location.x + a.dimensions.x
    }
}

/// The smaller y corner of the artboard rectangle.
pub open spec fn artboard_min_y(a: Artboard) -> int {
    if a.location.y <= a.location.y + a.dimensions.y {
        a.location.y as int
    } else {
        a.location.y + a.dimensions.y
    }
}

/// Magnitude of an integer.
pub open spec fn abs_int(v: int) -> int {
    if v >= 0 {
        v
    } else {
        -v
    }
}

/// The artboard's background rectangle: its class, hex fill, minimum corner
/// and absolute dimensions.
pub open spec fn artboard_bg_text(a: Artboard, indent: nat) -> Seq<char> {
    leaf_text(
        indent,
        "rect"@,
        attr_text("class"@, "artboard-bg"@) + attr_text(
            "fill"@,
            "#"@ + a.background.rgba_hex_spec(),
        ) + attr_text("x"@, int_dec_seq(artboard_min_x(a))) + attr_text(
            "y"@,
            int_dec_seq(artboard_min_y(a)),
        ) + attr_text("width"@, int_dec_seq(abs_int(a.dimensions.x as int))) + attr_text(
            "height"@,
            int_dec_seq(abs_int(a.dimensions.y as int)),
        ),
    )
}

/// The artboard's identifying label element.
pub open spec fn artboard_label_text(a: Artboard, indent: nat) -> Seq<char> {
    open_text(
        indent,
        "text"@,
        attr_text("class"@, "artboard-label"@) + attr_text("fill"@, "white"@) + attr_text(
            "x"@,
            int_dec_seq(artboard_min_x(a)),
        ) + attr_text("y"@, int_dec_seq(artboard_min_y(a) - 4)) + attr_text(
            "font-size"@,
            "14px"@,
        ),
    ) + "Artboard"@ + close_text(indent, "text"@)
}

/// The identifier of the clip path an artboard registers.
pub open spec fn clip_id_text(next_id: int) -> Seq<char> {
    "artboard-"@ + dec_seq(next_id as nat)
}

/// The clip path definition an artboard appends to the shared definitions.
pub open spec fn clip_def_text(a: Artboard, next_id: int) -> Seq<char> {
    "<clipPath id=\""@ + clip_id_text(next_id) + "\"><rect x=\""@ + int_dec_seq(
        a.location.x as int,
    ) + "\" y=\""@ + int_dec_seq(a.location.y as int) + "\" width=\""@ + int_dec_seq(
        a.dimensions.x as int,
    ) + "\" height=\""@ + int_dec_seq(a.dimensions.y as int) + "\"/></clipPath>"@
}

/// The attributes of the artboard's contents group: its class and, when the
/// artboard clips, a reference to the registered clip path.
pub open spec fn contents_attrs_text(a: Artboard, next_id: int) -> Seq<char> {
    attr_text("class"@, "artboard"@) + (if a.clip {
        attr_text("clip-path"@, "url(#"@ + clip_id_text(next_id) + ")"@)
    } else {
        Seq::<char>::empty()
    })
}

/// How many fresh identifiers rendering this value draws: one per image
/// frame and one per clipping artboard.
pub open spec fn ids_used(data: GraphicElementData) -> nat
    decreases data,
{
    match data {
        GraphicElementData::VectorShape(_) => 0,
        GraphicElementData::ImageFrame(_) => 1,
        GraphicElementData::Text(_) => 0,
        GraphicElementData::GraphicGroup(g) => ids_used_elems(g.elements@),
        GraphicElementData::Artboard(a) => (if a.clip {
            1nat
        } else {
            0
        }) + ids_used_elems(a.graphic_group.elements@),
    }
}

/// Fresh identifiers drawn by a run of elements, in order.
pub open spec fn ids_used_elems(elems: Seq<GraphicElement>) -> nat
    decreases elems,
{
    if elems.len() == 0 {
        0
    } else {
        ids_used_elems(elems.drop_last()) + ids_used(elems.last().graphic_element_data)
    }
}

/// How many image assets rendering this value defers.
pub open spec fn images_used(data: GraphicElementData) -> nat
    decreases data,
{
    match data {
        GraphicElementData::ImageFrame(_) => 1,
        GraphicElementData::GraphicGroup(g) => images_used_elems(g.elements@),
        GraphicElementData::Artboard(a) => images_used_elems(a.graphic_group.elements@),
        _ => 0,
    }
}

/// Image assets deferred by a run of elements.
pub open spec fn images_used_elems(elems: Seq<GraphicElement>) -> nat
    decreases elems,
{
    if elems.len() == 0 {
        0
    } else {
        images_used_elems(elems.drop_last()) + images_used(elems.last().graphic_element_data)
    }
}

/// How many indentation levels rendering this value descends: one per
/// artboard nesting.
pub open spec fn nest_depth(data: GraphicElementData) -> nat
    decreases data,
{
    match data {
        GraphicElementData::GraphicGroup(g) => nest_depth_elems(g.elements@),
        GraphicElementData::Artboard(a) => 1 + nest_depth_elems(a.graphic_group.elements@),
        _ => 0,
    }
}

/// The deepest descent among a run of elements.
pub open spec fn nest_depth_elems(elems: Seq<GraphicElement>) -> nat
    decreases elems,
{
    if elems.len() == 0 {
        0
    } else if nest_depth_elems(elems.drop_last()) >= nest_depth(elems.last().graphic_element_data) {
        nest_depth_elems(elems.drop_last())
    } else {
        nest_depth(elems.last().graphic_element_data)
    }
}

/// The markup a scene value renders as, given the accumulated transform,
/// the indentation depth, and the next fresh identifier.
pub open spec fn render_text(data: GraphicElementData, t: Affine, indent: nat, next_id: int) -> Seq<
    char,
>
    decreases data,
{
    match data {
        GraphicElementData::VectorShape(v) => vector_shape_text(*v, t, indent),
        GraphicElementData::ImageFrame(frame) => image_frame_text(frame, t, indent),
        GraphicElementData::Text(_) => Seq::empty(),
        GraphicElementData::GraphicGroup(g) => group_text(g.elements@, t, indent, next_id),
        GraphicElementData::Artboard(a) => artboard_text(*a, t, indent, next_id),
    }
}

/// The markup a run of elements renders as: their renders concatenated in
/// list order, each drawing its identifiers after its predecessors', with no
/// wrapping element of the group's own.
pub open spec fn group_text(elems: Seq<GraphicElement>, t: Affine, indent: nat, next_id: int) -> Seq<
    char,
>
    decreases elems,
{
    if elems.len() == 0 {
        Seq::empty()
    } else {
        group_text(elems.drop_last(), t, indent, next_id) + render_text(
            elems.last().graphic_element_data,
            t,
            indent,
            next_id + ids_used_elems(elems.drop_last()),
        )
    }
}

/// The markup an artboard renders as: its background rectangle, its label,
/// and its contents group one level deeper — collapsed to a self-closing tag
/// when the contents render as nothing.
pub open spec fn artboard_text(a: Artboard, t: Affine, indent: nat, next_id: int) -> Seq<char>
    decreases a,
{
    artboard_bg_text(a, indent) + artboard_label_text(a, indent) + artboard_contents_text(
        a,
        t,
        indent,
        next_id,
    )
}

/// The markup of the artboard's contents group: its children one level
/// deeper, or a single self-closing tag when they render as nothing.
pub open spec fn artboard_contents_text(a: Artboard, t: Affine, indent: nat, next_id: int) -> Seq<
    char,
>
    decreases a.graphic_group,
{
    let children = group_text(
        a.graphic_group.elements@,
        t,
        indent + 1,
        next_id + (if a.clip {
            1int
        } else {
            0
        }),
    );
    if children == Seq::<char>::empty() {
        "\n"@ + tabs_seq(indent) + "<"@ + "g"@ + contents_attrs_text(a, next_id) + "/>"@
    } else {
        open_text(indent, "g"@, contents_attrs_text(a, next_id)) + children + close_text(
            indent,
            "g"@,
        )
    }
}

/// What a scene value appends to the shared definitions: clip paths of
/// clipping artboards, in render order.
pub open spec fn defs_text(data: GraphicElementData, next_id: int) -> Seq<char>
    decreases data,
{
    match data {
        GraphicElementData::GraphicGroup(g) => defs_group(g.elements@, next_id),
        GraphicElementData::Artboard(a) => (if a.clip {
            clip_def_text(*a, next_id)
        } else {
            Seq::<char>::empty()
        }) + defs_group(
            a.graphic_group.elements@,
            next_id + (if a.clip {
                1int
            } else {
                0
            }),
        ),
        _ => Seq::empty(),
    }
}

/// Definitions appended by a run of elements.
pub open spec fn defs_group(elems: Seq<GraphicElement>, next_id: int) -> Seq<char>
    decreases elems,
{
    if elems.len() == 0 {
        Seq::empty()
    } else {
        defs_group(elems.drop_last(), next_id) + defs_text(
            elems.last().graphic_element_data,
            next_id + ids_used_elems(elems.drop_last()),
        )
    }
}

/// Prefix counts are bounded by the whole: the identifiers, assets and
/// depth of one element fit inside the totals of its run.
proof fn lemma_elem_counts(elems: Seq<GraphicElement>, i: int)
    requires
        0 <= i < elems.len(),
    ensures
        ids_used_elems(elems.take(i)) + ids_used(elems[i].graphic_element_data) <= ids_used_elems(
            elems,
        ),
        images_used_elems(elems.take(i)) + images_used(elems[i].graphic_element_data)
            <= images_used_elems(elems),
        nest_depth(elems[i].graphic_element_data) <= nest_depth_elems(elems),
    decreases elems.len() - i,
{
    if i == elems.len() - 1 {
        assert(elems.take(i) =~= elems.drop_last());
        assert(elems.last() == elems[i]);
    } else {
        assert(elems.drop_last().take(i) =~= elems.take(i));
        assert(elems.drop_last()[i] == elems[i]);
        lemma_elem_counts(elems.drop_last(), i);
    }
}

/// Extending a prefix by one element adds that element's counts and markup.
proof fn lemma_take_step(elems: Seq<GraphicElement>, i: int, t: Affine, indent: nat, next_id: int)
    requires
        0 <= i < elems.len(),
    ensures
        ids_used_elems(elems.take(i + 1)) == ids_used_elems(elems.take(i)) + ids_used(
            elems[i].graphic_element_data,
        ),
        images_used_elems(elems.take(i + 1)) == images_used_elems(elems.take(i)) + images_used(
            elems[i].graphic_element_data,
        ),
        group_text(elems.take(i + 1), t, indent, next_id) == group_text(
            elems.take(i),
            t,
            indent,
            next_id,
        ) + render_text(
            elems[i].graphic_element_data,
            t,
            indent,
            next_id + ids_used_elems(elems.take(i)),
        ),
        defs_group(elems.take(i + 1), next_id) == defs_group(elems.take(i), next_id) + defs_text(
            elems[i].graphic_element_data,
            next_id + ids_used_elems(elems.take(i)),
        ),
{
    assert(elems.take(i + 1).drop_last() =~= elems.take(i));
    assert(elems.take(i + 1).last() == elems[i]);
}

/// The markup path data of a polyline subpath under a transform: a move to
/// the first point, a line to each further point, and a close command when
/// the subpath is closed.
fn subpath_to_svg(out: &mut String, subpath: &Subpath, transform: Affine)
    ensures
        final(out)@ == old(out)@ + subpath_d_text(subpath.points@, subpath.closed, transform),
{
    let n = subpath.points.len();
    let mut i: usize = 0;
    proof {
        assert(subpath.points@.take(0) =~= Seq::<Vec2F>::empty());
        assert(out@ + points_d_text(subpath.points@.take(0), transform) =~= out@);
    }
    while i < n
        invariant
            i <= n,
            n == subpath.points@.len(),
            out@ == old(out)@ + points_d_text(subpath.points@.take(i as int), transform),
        decreases n - i,
    {
        let q = transform.transform_point(subpath.points[i]);
        if i == 0 {
            out.append("M ");
        } else {
            out.append(" L ");
        }
        out.append(fixed_to_string(q.x).as_str());
        out.append(",");
        out.append(fixed_to_string(q.y).as_str());
        proof {
            let pre = subpath.points@.take(i as int);
            let post = subpath.points@.take(i as int + 1);
            assert(post.drop_last() =~= pre);
            assert(post.last() == subpath.points@[i as int]);
            reveal_strlit("M ");
            reveal_strlit(" L ");
            reveal_strlit(",");
            assert(out@ =~= old(out)@ + points_d_text(post, transform));
        }
        i = i + 1;
    }
    proof {
        assert(subpath.points@.take(n as int) =~= subpath.points@);
    }
    if subpath.closed && n > 0 {
        out.append(" Z");
        proof {
            reveal_strlit(" Z");
        }
    }
    proof {
        assert(final(out)@ =~= old(out)@ + subpath_d_text(
            subpath.points@,
            subpath.closed,
            transform,
        ));
    }
}

/// The fill or stroke colour value: a hex colour or the word `none`.
fn color_attr_value(color: &Option<Color>) -> (r: SvgSegment)
    ensures
        seg_view(r) == color_value_text(*color),
{
    match color {
        Option::Some(c) => {
            let mut s = String::from_str("#");
            s.append(c.rgba_hex().as_str());
            SvgSegment::Owned(s)
        },
        Option::None => SvgSegment::Slice("none"),
    }
}

/// Renders a vector shape: one path element carrying the shape's subpaths
/// under the composed transform, with its fill and stroke.
#[verifier::rlimit(100)]
#[verifier::spinoff_prover]
fn render_vector_shape(vector_data: &VectorData, render: &mut SvgRender)
    ensures
        list_view(final(render).svg.segments@) == list_view(old(render).svg.segments@)
            + vector_shape_text(*vector_data, old(render).transform, old(render).indent as nat),
        final(render).svg.segments@.len() > old(render).svg.segments@.len(),
        final(render).svg.segments@.take(old(render).svg.segments@.len() as int) == old(
            render,
        ).svg.segments@,
        final(render).svg_defs == old(render).svg_defs,
        final(render).image_data == old(render).image_data,
        final(render).next_id == old(render).next_id,
        final(render).transform == old(render).transform,
        final(render).indent == old(render).indent,
        vector_shape_text(*vector_data, old(render).transform, old(render).indent as nat).len()
            > 0,
{
    let composed = vector_data.transform.compose(render.transform);
    let mut path = String::new();
    let n = vector_data.subpaths.len();
    let mut i: usize = 0;
    proof {
        assert(vector_data.subpaths@.take(0) =~= Seq::<Subpath>::empty());
        assert(path@ =~= path_d_text(vector_data.subpaths@.take(0), composed));
    }
    while i < n
        invariant
            i <= n,
            n == vector_data.subpaths@.len(),
            composed == vector_data.transform.compose_spec(render.transform),
            path@ == path_d_text(vector_data.subpaths@.take(i as int), composed),
        decreases n - i,
    {
        subpath_to_svg(&mut path, &vector_data.subpaths[i], composed);
        proof {
            let pre = vector_data.subpaths@.take(i as int);
            let post = vector_data.subpaths@.take(i as int + 1);
            assert(post.drop_last() =~= pre);
            assert(post.last() == vector_data.subpaths@[i as int]);
        }
        i = i + 1;
    }
    proof {
        assert(vector_data.subpaths@.take(n as int) =~= vector_data.subpaths@);
    }
    let fill_value = color_attr_value(&vector_data.style.fill);
    let mut attrs: Vec<SvgAttr> = Vec::new();
    attrs.push(SvgAttr { name: "class", value: SvgSegment::Slice("vector-data") });
    attrs.push(SvgAttr { name: "d", value: SvgSegment::Owned(path) });
    attrs.push(SvgAttr { name: "fill", value: fill_value });
    let ghost s3 = attrs@;
    match &vector_data.style.stroke {
        Option::Some(stroke) => {
            attrs.push(SvgAttr { name: "stroke", value: color_attr_value(&stroke.color) });
            attrs.push(
                SvgAttr {
                    name: "stroke-width",
                    value: SvgSegment::Owned(fixed_to_string(stroke.weight)),
                },
            );
        },
        Option::None => {},
    }
    proof {
        reveal_strlit("vector-data");
        let s = attrs@;
        lemma_attrs_view_unfold(s);
        lemma_attrs_view_unfold(s.drop_last());
        lemma_attrs_view_unfold(s.drop_last().drop_last());
        lemma_attrs_view_unfold(s.drop_last().drop_last().drop_last());
        lemma_attrs_view_unfold(s.drop_last().drop_last().drop_last().drop_last());
        if vector_data.style.stroke is Some {
            assert(s.drop_last().drop_last() =~= s3);
            assert(s3.drop_last().drop_last() =~= Seq::<SvgAttr>::empty().push(s3[0]));
            assert(Seq::<SvgAttr>::empty().push(s3[0]).drop_last() =~= Seq::<SvgAttr>::empty());
        } else {
            assert(s =~= s3);
            assert(s3.drop_last().drop_last() =~= Seq::<SvgAttr>::empty().push(s3[0]));
            assert(Seq::<SvgAttr>::empty().push(s3[0]).drop_last() =~= Seq::<SvgAttr>::empty());
        }
        assert(attrs_view(attrs@) =~= attr_text("class"@, "vector-data"@) + attr_text(
            "d"@,
            path_d_text(vector_data.subpaths@, composed),
        ) + attr_text("fill"@, color_value_text(vector_data.style.fill)) + stroke_attrs_text(
            vector_data.style.stroke,
        ));
    }
    render.leaf_tag("path", attrs);
    proof {
        assert(list_view(render.svg.segments@) =~= list_view(old(render).svg.segments@)
            + vector_shape_text(*vector_data, old(render).transform, old(render).indent as nat));
        reveal_strlit("\n");
        assert(vector_shape_text(
            *vector_data,
            old(render).transform,
            old(render).indent as nat,
        ).len() > 0);
        assert(render.svg.segments@.len() > old(render).svg.segments@.len()) by {
            if render.svg.segments@.len() == old(render).svg.segments@.len() {
                assert(render.svg.segments@ =~= old(render).svg.segments@);
            }
        };
    }
}

/// Renders an image frame: a unit-square image placement under the composed
/// transform, deferring the pixel data to the asset list under a fresh
/// identifier.
#[verifier::rlimit(100)]
#[verifier::spinoff_prover]
fn render_image_frame(frame: &ImageFrame, render: &mut SvgRender)
    requires
        old(render).next_id < u64::MAX,
    ensures
        list_view(final(render).svg.segments@) == list_view(old(render).svg.segments@)
            + image_frame_text(*frame, old(render).transform, old(render).indent as nat),
        final(render).svg.segments@.len() > old(render).svg.segments@.len(),
        final(render).svg.segments@.take(old(render).svg.segments@.len() as int) == old(
            render,
        ).svg.segments@,
        final(render).svg_defs == old(render).svg_defs,
        final(render).next_id == old(render).next_id + 1,
        final(render).image_data@ == old(render).image_data@.push(
            (old(render).next_id, final(render).image_data@.last().1),
        ),
        crate::value::image_equiv(final(render).image_data@.last().1, frame.image),
        exists|p: int|
            old(render).svg.segments@.len() <= p < final(render).svg.segments@.len()
                && #[trigger] final(render).svg.segments@[p] == SvgSegment::BlobUrl(
                old(render).next_id,
            ),
        final(render).transform == old(render).transform,
        final(render).indent == old(render).indent,
        image_frame_text(*frame, old(render).transform, old(render).indent as nat).len() > 0,
{
    let composed = frame.transform.compose(render.transform);
    let matrix = format_transform_matrix(composed);
    let id = render.fresh_id();
    let mut attrs: Vec<SvgAttr> = Vec::new();
    attrs.push(SvgAttr { name: "width", value: SvgSegment::Slice("1") });
    attrs.push(SvgAttr { name: "height", value: SvgSegment::Slice("1") });
    attrs.push(SvgAttr { name: "preserveAspectRatio", value: SvgSegment::Slice("none") });
    attrs.push(SvgAttr { name: "transform", value: SvgSegment::Owned(matrix) });
    attrs.push(SvgAttr { name: "href", value: SvgSegment::BlobUrl(id) });
    proof {
        reveal_strlit("1");
        reveal_strlit("none");
        let s = attrs@;
        lemma_attrs_view_unfold(s);
        lemma_attrs_view_unfold(s.drop_last());
        lemma_attrs_view_unfold(s.drop_last().drop_last());
        lemma_attrs_view_unfold(s.drop_last().drop_last().drop_last());
        lemma_attrs_view_unfold(s.drop_last().drop_last().drop_last().drop_last());
        assert(s.drop_last().drop_last().drop_last().drop_last()
            =~= Seq::<SvgAttr>::empty().push(s[0]));
        assert(Seq::<SvgAttr>::empty().push(s[0]).drop_last() =~= Seq::<SvgAttr>::empty());
        assert(attrs_view(attrs@) =~= attr_text("width"@, "1"@) + attr_text("height"@, "1"@)
            + attr_text("preserveAspectRatio"@, "none"@) + attr_text(
            "transform"@,
            "matrix("@ + matrix_body_seq(composed) + ")"@,
        ) + attr_text("href"@, "<!-- Blob url not yet loaded -->"@));
    }
    let ghost attrs_seq = attrs@;
    render.leaf_tag("image", attrs);
    proof {
        assert(attrs_seq[4].value == SvgSegment::BlobUrl(id));
        assert(exists|p: int|
            old(render).svg.segments@.len() <= p < render.svg.segments@.len()
                && render.svg.segments@[p] == SvgSegment::BlobUrl(id));
    }
    let copied = crate::value::clone_image(&frame.image);
    render.image_data.push((id, copied));
    proof {
        assert(list_view(render.svg.segments@) =~= list_view(old(render).svg.segments@)
            + image_frame_text(*frame, old(render).transform, old(render).indent as nat));
        reveal_strlit("\n");
        assert(image_frame_text(*frame, old(render).transform, old(render).indent as nat).len()
            > 0);
        assert(render.svg.segments@.len() > old(render).svg.segments@.len()) by {
            if render.svg.segments@.len() == old(render).svg.segments@.len() {
                assert(render.svg.segments@ =~= old(render).svg.segments@);
            }
        };
    }
}

/// Renders a scene value into the render state: the markup of the value is
/// appended to the output, clip path definitions are appended to the shared
/// definitions, raw image data is deferred to the asset list under fresh,
/// strictly increasing identifiers, and the accumulated transform and the
/// indentation are left unchanged. Reserved text values cannot be rendered.
#[verifier::rlimit(100)]
pub fn render_svg(data: &GraphicElementData, render: &mut SvgRender, render_params: &RenderParams)
    requires
        renderable(*data),
        old(render).next_id + ids_used(*data) <= u64::MAX,
        old(render).indent + nest_depth(*data) <= usize::MAX,
    ensures
        list_view(final(render).svg.segments@) == list_view(old(render).svg.segments@)
            + render_text(
            *data,
            old(render).transform,
            old(render).indent as nat,
            old(render).next_id as int,
        ),
        final(render).svg_defs@ == old(render).svg_defs@ + defs_text(
            *data,
            old(render).next_id as int,
        ),
        final(render).next_id == old(render).next_id + ids_used(*data),
        final(render).svg.segments@.len() >= old(render).svg.segments@.len(),
        final(render).svg.segments@.take(old(render).svg.segments@.len() as int) == old(
            render,
        ).svg.segments@,
        final(render).image_data@.len() == old(render).image_data@.len() + images_used(*data),
        final(render).image_data@.take(old(render).image_data@.len() as int) == old(
            render,
        ).image_data@,
        forall|k: int|
            old(render).image_data@.len() <= k < final(render).image_data@.len() ==> old(
                render,
            ).next_id <= (#[trigger] final(render).image_data@[k]).0 < final(render).next_id,
        forall|k1: int, k2: int|
            old(render).image_data@.len() <= k1 < k2 < final(render).image_data@.len() ==> (
            #[trigger] final(render).image_data@[k1]).0 < (
            #[trigger] final(render).image_data@[k2]).0,
        final(render).transform == old(render).transform,
        final(render).indent == old(render).indent,
        render_text(
            *data,
            old(render).transform,
            old(render).indent as nat,
            old(render).next_id as int,
        ) == Seq::<char>::empty() ==> *final(render) == *old(render),
        (match *data {
            GraphicElementData::ImageFrame(frame) => final(render).image_data@ == old(
                render,
            ).image_data@.push(
                (old(render).next_id, final(render).image_data@.last().1),
            ) && crate::value::image_equiv(final(render).image_data@.last().1, frame.image)
                && (exists|p: int|
                old(render).svg.segments@.len() <= p < final(render).svg.segments@.len()
                    && #[trigger] final(render).svg.segments@[p] == SvgSegment::BlobUrl(
                    old(render).next_id,
                )),
            _ => true,
        }),
    decreases *data,
{
    match data {
        GraphicElementData::VectorShape(vector_data) => {
            render_vector_shape(vector_data, render);
        },
        GraphicElementData::ImageFrame(frame) => {
            render_image_frame(frame, render);
        },
        GraphicElementData::Text(_) => {
            proof {
                assert(false);
            }
        },
        GraphicElementData::GraphicGroup(group) => {
            render_group(&group.elements, render, render_params);
        },
        GraphicElementData::Artboard(artboard) => {
            render_artboard(artboard, render, render_params);
        },
    }
}

/// Unfolds the attribute-list view into the attributes' texts.
proof fn lemma_attrs_view_unfold(s: Seq<SvgAttr>)
    ensures
        s.len() == 0 ==> attrs_view(s) == Seq::<char>::empty(),
        s.len() > 0 ==> attrs_view(s) == attrs_view(s.drop_last()) + attr_text(
            s.last().name@,
            seg_view(s.last().value),
        ),
    decreases s.len(),
{
}

/// Renders the elements of a group in order, concatenating their markup; a
/// group emits no wrapping element of its own, and an empty group leaves
/// the render state untouched.
pub fn render_group(
    elements: &Vec<GraphicElement>,
    render: &mut SvgRender,
    render_params: &RenderParams,
)
    requires
        renderable_elems(elements@),
        old(render).next_id + ids_used_elems(elements@) <= u64::MAX,
        old(render).indent + nest_depth_elems(elements@) <= usize::MAX,
    ensures
        list_view(final(render).svg.segments@) == list_view(old(render).svg.segments@)
            + group_text(
            elements@,
            old(render).transform,
            old(render).indent as nat,
            old(render).next_id as int,
        ),
        final(render).svg_defs@ == old(render).svg_defs@ + defs_group(
            elements@,
            old(render).next_id as int,
        ),
        final(render).next_id == old(render).next_id + ids_used_elems(elements@),
        final(render).svg.segments@.len() >= old(render).svg.segments@.len(),
        final(render).svg.segments@.take(old(render).svg.segments@.len() as int) == old(
            render,
        ).svg.segments@,
        final(render).image_data@.len() == old(render).image_data@.len() + images_used_elems(
            elements@,
        ),
        final(render).image_data@.take(old(render).image_data@.len() as int) == old(
            render,
        ).image_data@,
        forall|k: int|
            old(render).image_data@.len() <= k < final(render).image_data@.len() ==> old(
                render,
            ).next_id <= (#[trigger] final(render).image_data@[k]).0 < final(render).next_id,
        forall|k1: int, k2: int|
            old(render).image_data@.len() <= k1 < k2 < final(render).image_data@.len() ==> (
            #[trigger] final(render).image_data@[k1]).0 < (
            #[trigger] final(render).image_data@[k2]).0,
        final(render).transform == old(render).transform,
        final(render).indent == old(render).indent,
        group_text(
            elements@,
            old(render).transform,
            old(render).indent as nat,
            old(render).next_id as int,
        ) == Seq::<char>::empty() ==> *final(render) == *old(render),
        elements@.len() == 0 ==> *final(render) == *old(render),
    decreases *elements,
{
    let ghost t = old(render).transform;
    let ghost ind = old(render).indent as nat;
    let ghost nid = old(render).next_id as int;
    let n = elements.len();
    proof {
        assert(elements@.take(0) =~= Seq::<GraphicElement>::empty());
        assert(list_view(render.svg.segments@) =~= list_view(old(render).svg.segments@)
            + group_text(elements@.take(0), t, ind, nid));
        assert(render.svg_defs@ =~= old(render).svg_defs@ + defs_group(elements@.take(0), nid));
        assert(render.svg.segments@.take(old(render).svg.segments@.len() as int)
            =~= old(render).svg.segments@);
        assert(render.image_data@.take(old(render).image_data@.len() as int)
            =~= old(render).image_data@);
    }
    if n == 0 {
        return;
    }
    let mut i: usize = 0;
    while i < n
        invariant
            i <= n,
            n == elements@.len(),
            renderable_elems(elements@),
            old(render).next_id + ids_used_elems(elements@) <= u64::MAX,
            old(render).indent + nest_depth_elems(elements@) <= usize::MAX,
            t == old(render).transform,
            ind == old(render).indent as nat,
            nid == old(render).next_id as int,
            render.transform == old(render).transform,
            render.indent == old(render).indent,
            render.next_id == old(render).next_id + ids_used_elems(elements@.take(i as int)),
            list_view(render.svg.segments@) == list_view(old(render).svg.segments@) + group_text(
                elements@.take(i as int),
                t,
                ind,
                nid,
            ),
            render.svg_defs@ == old(render).svg_defs@ + defs_group(elements@.take(i as int), nid),
            render.svg.segments@.len() >= old(render).svg.segments@.len(),
            render.svg.segments@.take(old(render).svg.segments@.len() as int) == old(
                render,
            ).svg.segments@,
            render.image_data@.len() == old(render).image_data@.len() + images_used_elems(
                elements@.take(i as int),
            ),
            render.image_data@.take(old(render).image_data@.len() as int) == old(
                render,
            ).image_data@,
            forall|k: int|
                old(render).image_data@.len() <= k < render.image_data@.len() ==> old(
                    render,
                ).next_id <= (#[trigger] render.image_data@[k]).0 < render.next_id,
            forall|k1: int, k2: int|
                old(render).image_data@.len() <= k1 < k2 < render.image_data@.len() ==> (
                #[trigger] render.image_data@[k1]).0 < (#[trigger] render.image_data@[k2]).0,
            group_text(elements@.take(i as int), t, ind, nid) == Seq::<char>::empty()
                ==> *render == *old(render),
        decreases n - i,
    {
        let ghost before = *render;
        proof {
            lemma_elem_counts(elements@, i as int);
        }
        render_svg(&elements[i].graphic_element_data, render, render_params);
        proof {
            lemma_take_step(elements@, i as int, t, ind, nid);
            lemma_prefix_trans(old(render).svg.segments@, before.svg.segments@,
                render.svg.segments@);
            lemma_prefix_trans(old(render).image_data@, before.image_data@, render.image_data@);
            let child_text = render_text(
                elements@[i as int].graphic_element_data,
                t,
                ind,
                nid + ids_used_elems(elements@.take(i as int)),
            );
            assert(list_view(render.svg.segments@) =~= list_view(old(render).svg.segments@)
                + group_text(elements@.take(i as int + 1), t, ind, nid));
            assert(render.svg_defs@ =~= old(render).svg_defs@ + defs_group(
                elements@.take(i as int + 1),
                nid,
            ));
            assert forall|k: int|
                old(render).image_data@.len() <= k < render.image_data@.len() implies old(
            render).next_id <= (#[trigger] render.image_data@[k]).0 < render.next_id by {
                if k < before.image_data@.len() {
                    assert(render.image_data@.take(before.image_data@.len() as int)[k]
                        == render.image_data@[k]);
                    assert(render.image_data@[k] == before.image_data@[k]);
                }
            }
            assert forall|k1: int, k2: int|
                old(render).image_data@.len() <= k1 < k2 < render.image_data@.len() implies (
            #[trigger] render.image_data@[k1]).0 < (#[trigger] render.image_data@[k2]).0 by {
                if k2 < before.image_data@.len() {
                    assert(render.image_data@.take(before.image_data@.len() as int)[k1]
                        == render.image_data@[k1]);
                    assert(render.image_data@.take(before.image_data@.len() as int)[k2]
                        == render.image_data@[k2]);
                    assert(render.image_data@[k1] == before.image_data@[k1]);
                    assert(render.image_data@[k2] == before.image_data@[k2]);
                } else if k1 >= before.image_data@.len() {
                } else {
                    assert(render.image_data@.take(before.image_data@.len() as int)[k1]
                        == render.image_data@[k1]);
                    assert(render.image_data@[k1] == before.image_data@[k1]);
                    assert(render.image_data@[k1].0 < before.next_id);
                }
            }
            if group_text(elements@.take(i as int + 1), t, ind, nid) == Seq::<char>::empty() {
                assert(group_text(elements@.take(i as int), t, ind, nid)
                    == Seq::<char>::empty());
                assert(before == *old(render));
                assert(child_text == Seq::<char>::empty());
            }
        }
        i = i + 1;
    }
    proof {
        assert(elements@.take(n as int) =~= elements@);
    }
}

/// Builds the background-rectangle attributes of an artboard.
fn artboard_bg_attrs(artboard: &Artboard) -> (r: Vec<SvgAttr>)
    ensures
        attrs_view(r@) == attr_text("class"@, "artboard-bg"@) + attr_text(
            "fill"@,
            "#"@ + artboard.background.rgba_hex_spec(),
        ) + attr_text("x"@, int_dec_seq(artboard_min_x(*artboard))) + attr_text(
            "y"@,
            int_dec_seq(artboard_min_y(*artboard)),
        ) + attr_text("width"@, int_dec_seq(abs_int(artboard.dimensions.x as int))) + attr_text(
            "height"@,
            int_dec_seq(abs_int(artboard.dimensions.y as int)),
        ),
{
    let loc_x = artboard.location.x as i64;
    let loc_y = artboard.location.y as i64;
    let dim_x = artboard.dimensions.x as i64;
    let dim_y = artboard.dimensions.y as i64;
    let min_x = if loc_x <= loc_x + dim_x {
        loc_x
    } else {
        loc_x + dim_x
    };
    let min_y = if loc_y <= loc_y + dim_y {
        loc_y
    } else {
        loc_y + dim_y
    };
    let abs_w = if dim_x >= 0 {
        dim_x
    } else {
        -dim_x
    };
    let abs_h = if dim_y >= 0 {
        dim_y
    } else {
        -dim_y
    };
    let mut fill = String::from_str("#");
    fill.append(artboard.background.rgba_hex().as_str());
    let mut attrs: Vec<SvgAttr> = Vec::new();
    attrs.push(SvgAttr { name: "class", value: SvgSegment::Slice("artboard-bg") });
    attrs.push(SvgAttr { name: "fill", value: SvgSegment::Owned(fill) });
    attrs.push(SvgAttr { name: "x", value: SvgSegment::Owned(i64_to_string(min_x)) });
    attrs.push(SvgAttr { name: "y", value: SvgSegment::Owned(i64_to_string(min_y)) });
    attrs.push(SvgAttr { name: "width", value: SvgSegment::Owned(i64_to_string(abs_w)) });
    attrs.push(SvgAttr { name: "height", value: SvgSegment::Owned(i64_to_string(abs_h)) });
    proof {
        reveal_strlit("artboard-bg");
        reveal_strlit("#");
        let s = attrs@;
        lemma_attrs_view_unfold(s);
        lemma_attrs_view_unfold(s.drop_last());
        lemma_attrs_view_unfold(s.drop_last().drop_last());
        lemma_attrs_view_unfold(s.drop_last().drop_last().drop_last());
        lemma_attrs_view_unfold(s.drop_last().drop_last().drop_last().drop_last());
        lemma_attrs_view_unfold(s.drop_last().drop_last().drop_last().drop_last().drop_last());
        assert(s.drop_last().drop_last().drop_last().drop_last().drop_last()
            =~= Seq::<SvgAttr>::empty().push(s[0]));
        assert(Seq::<SvgAttr>::empty().push(s[0]).drop_last() =~= Seq::<SvgAttr>::empty());
        assert(min_x as int == artboard_min_x(*artboard));
        assert(min_y as int == artboard_min_y(*artboard));
        assert(abs_w as int == abs_int(artboard.dimensions.x as int));
        assert(abs_h as int == abs_int(artboard.dimensions.y as int));
        assert(attrs_view(attrs@) =~= attr_text("class"@, "artboard-bg"@) + attr_text(
            "fill"@,
            "#"@ + artboard.background.rgba_hex_spec(),
        ) + attr_text("x"@, int_dec_seq(artboard_min_x(*artboard))) + attr_text(
            "y"@,
            int_dec_seq(artboard_min_y(*artboard)),
        ) + attr_text("width"@, int_dec_seq(abs_int(artboard.dimensions.x as int))) + attr_text(
            "height"@,
            int_dec_seq(abs_int(artboard.dimensions.y as int)),
        ));
    }
    attrs
}

/// Builds the label attributes of an artboard.
fn artboard_label_attrs(artboard: &Artboard) -> (r: Vec<SvgAttr>)
    ensures
        attrs_view(r@) == attr_text("class"@, "artboard-label"@) + attr_text("fill"@, "white"@)
            + attr_text("x"@, int_dec_seq(artboard_min_x(*artboard))) + attr_text(
            "y"@,
            int_dec_seq(artboard_min_y(*artboard) - 4),
        ) + attr_text("font-size"@, "14px"@),
{
    let loc_x = artboard.location.x as i64;
    let loc_y = artboard.location.y as i64;
    let dim_x = artboard.dimensions.x as i64;
    let dim_y = artboard.dimensions.y as i64;
    let min_x = if loc_x <= loc_x + dim_x {
        loc_x
    } else {
        loc_x + dim_x
    };
    let min_y = if loc_y <= loc_y + dim_y {
        loc_y
    } else {
        loc_y + dim_y
    };
    let mut attrs: Vec<SvgAttr> = Vec::new();
    attrs.push(SvgAttr { name: "class", value: SvgSegment::Slice("artboard-label") });
    attrs.push(SvgAttr { name: "fill", value: SvgSegment::Slice("white") });
    attrs.push(SvgAttr { name: "x", value: SvgSegment::Owned(i64_to_string(min_x)) });
    attrs.push(SvgAttr { name: "y", value: SvgSegment::Owned(i64_to_string(min_y - 4)) });
    attrs.push(SvgAttr { name: "font-size", value: SvgSegment::Slice("14px") });
    proof {
        reveal_strlit("artboard-label");
        reveal_strlit("white");
        reveal_strlit("14px");
        let s = attrs@;
        lemma_attrs_view_unfold(s);
        lemma_attrs_view_unfold(s.drop_last());
        lemma_attrs_view_unfold(s.drop_last().drop_last());
        lemma_attrs_view_unfold(s.drop_last().drop_last().drop_last());
        lemma_attrs_view_unfold(s.drop_last().drop_last().drop_last().drop_last());
        assert(s.drop_last().drop_last().drop_last().drop_last()
            =~= Seq::<SvgAttr>::empty().push(s[0]));
        assert(Seq::<SvgAttr>::empty().push(s[0]).drop_last() =~= Seq::<SvgAttr>::empty());
        assert(min_x as int == artboard_min_x(*artboard));
        assert(min_y - 4 == artboard_min_y(*artboard) - 4);
        assert(attrs_view(attrs@) =~= attr_text("class"@, "artboard-label"@) + attr_text(
            "fill"@,
            "white"@,
        ) + attr_text("x"@, int_dec_seq(artboard_min_x(*artboard))) + attr_text(
            "y"@,
            int_dec_seq(artboard_min_y(*artboard) - 4),
        ) + attr_text("font-size"@, "14px"@));
    }
    attrs
}

/// Builds the contents-group attributes of an artboard; when the artboard
/// clips, a fresh identifier is drawn, the clip path definition is appended
/// to the shared definitions, and the attributes reference it.
fn artboard_contents_attrs(artboard: &Artboard, render: &mut SvgRender) -> (r: Vec<SvgAttr>)
    requires
        artboard.clip ==> old(render).next_id < u64::MAX,
    ensures
        attrs_view(r@) == contents_attrs_text(*artboard, old(render).next_id as int),
        final(render).svg_defs@ == old(render).svg_defs@ + (if artboard.clip {
            clip_def_text(*artboard, old(render).next_id as int)
        } else {
            Seq::<char>::empty()
        }),
        final(render).next_id == old(render).next_id + (if artboard.clip {
            1nat
        } else {
            0
        }),
        final(render).svg == old(render).svg,
        final(render).transform == old(render).transform,
        final(render).image_data == old(render).image_data,
        final(render).indent == old(render).indent,
{
    let ghost nid = old(render).next_id as int;
    let loc_x = artboard.location.x as i64;
    let loc_y = artboard.location.y as i64;
    let dim_x = artboard.dimensions.x as i64;
    let dim_y = artboard.dimensions.y as i64;
    let mut attrs: Vec<SvgAttr> = Vec::new();
    attrs.push(SvgAttr { name: "class", value: SvgSegment::Slice("artboard") });
    if artboard.clip {
        let id = render.fresh_id();
        let mut clip_id = String::from_str("artboard-");
        clip_id.append(u64_to_string(id).as_str());
        let mut selector = String::from_str("url(#");
        selector.append(clip_id.as_str());
        selector.append(")");
        let mut def = String::from_str("<clipPath id=\"");
        def.append(clip_id.as_str());
        def.append("\"><rect x=\"");
        def.append(i64_to_string(loc_x).as_str());
        def.append("\" y=\"");
        def.append(i64_to_string(loc_y).as_str());
        def.append("\" width=\"");
        def.append(i64_to_string(dim_x).as_str());
        def.append("\" height=\"");
        def.append(i64_to_string(dim_y).as_str());
        def.append("\"/></clipPath>");
        proof {
            reveal_strlit("artboard-");
            assert(clip_id@ =~= clip_id_text(nid));
            assert(def@ =~= clip_def_text(*artboard, nid));
        }
        render.svg_defs.append(def.as_str());
        attrs.push(SvgAttr { name: "clip-path", value: SvgSegment::Owned(selector) });
        proof {
            reveal_strlit("artboard");
            reveal_strlit("url(#");
            reveal_strlit(")");
            let s = attrs@;
            lemma_attrs_view_unfold(s);
            lemma_attrs_view_unfold(s.drop_last());
            assert(s.drop_last() =~= Seq::<SvgAttr>::empty().push(s[0]));
            assert(Seq::<SvgAttr>::empty().push(s[0]).drop_last() =~= Seq::<SvgAttr>::empty());
            assert(seg_view(attrs@[1].value) =~= "url(#"@ + clip_id_text(nid) + ")"@);
            assert(attrs_view(attrs@) =~= contents_attrs_text(*artboard, nid));
        }
    } else {
        proof {
            reveal_strlit("artboard");
            let s = attrs@;
            lemma_attrs_view_unfold(s);
            assert(s.drop_last() =~= Seq::<SvgAttr>::empty());
            assert(attrs_view(attrs@) =~= contents_attrs_text(*artboard, nid));
            assert(render.svg_defs@ =~= old(render).svg_defs@ + Seq::<char>::empty());
        }
    }
    attrs
}

/// Emits the artboard's background rectangle and its label.
#[verifier::rlimit(100)]
#[verifier::spinoff_prover]
fn artboard_prologue(artboard: &Artboard, render: &mut SvgRender)
    requires
        old(render).indent < usize::MAX,
    ensures
        list_view(final(render).svg.segments@) == list_view(old(render).svg.segments@)
            + artboard_bg_text(*artboard, old(render).indent as nat) + artboard_label_text(
            *artboard,
            old(render).indent as nat,
        ),
        final(render).svg.segments@.len() >= old(render).svg.segments@.len(),
        final(render).svg.segments@.take(old(render).svg.segments@.len() as int) == old(
            render,
        ).svg.segments@,
        final(render).svg_defs == old(render).svg_defs,
        final(render).image_data == old(render).image_data,
        final(render).next_id == old(render).next_id,
        final(render).transform == old(render).transform,
        final(render).indent == old(render).indent,
{
    let ghost ind = old(render).indent as nat;
    let attrs = artboard_bg_attrs(artboard);
    let ghost g0 = render.svg.segments@;
    render.leaf_tag("rect", attrs);
    let ghost g1 = render.svg.segments@;
    proof {
        assert(list_view(g1) =~= list_view(g0) + artboard_bg_text(*artboard, ind));
    }
    let attrs = artboard_label_attrs(artboard);
    let mark = render.parent_tag_open("text", attrs);
    let ghost g2 = render.svg.segments@;
    proof {
        lemma_prefix_trans(g0, g1, g2);
    }
    render.svg.push(SvgSegment::Slice("Artboard"));
    let ghost g3 = render.svg.segments@;
    proof {
        lemma_list_view_push(g2, SvgSegment::Slice("Artboard"));
        reveal_strlit("Artboard");
        assert(g3.take(g2.len() as int) =~= g2);
        lemma_prefix_trans(g0, g2, g3);
    }
    render.parent_tag_close("text", mark);
    proof {
        let g4 = render.svg.segments@;
        assert(g3.len() > mark);
        lemma_prefix_trans(g0, g3, g4);
        assert(list_view(g4) =~= list_view(g0) + artboard_bg_text(*artboard, ind)
            + artboard_label_text(*artboard, ind));
    }
}

/// Renders an artboard: its background rectangle, its label, and its
/// contents group inside a transform and optional clip scope.
#[verifier::rlimit(100)]
#[verifier::spinoff_prover]
fn render_artboard(artboard: &Artboard, render: &mut SvgRender, render_params: &RenderParams)
    requires
        renderable_elems(artboard.graphic_group.elements@),
        old(render).next_id + (if artboard.clip {
            1nat
        } else {
            0
        }) + ids_used_elems(artboard.graphic_group.elements@) <= u64::MAX,
        old(render).indent + 1 + nest_depth_elems(artboard.graphic_group.elements@)
            <= usize::MAX,
    ensures
        list_view(final(render).svg.segments@) == list_view(old(render).svg.segments@)
            + artboard_text(
            *artboard,
            old(render).transform,
            old(render).indent as nat,
            old(render).next_id as int,
        ),
        final(render).svg_defs@ == old(render).svg_defs@ + defs_text(
            GraphicElementData::Artboard(Box::new(*artboard)),
            old(render).next_id as int,
        ),
        final(render).next_id == old(render).next_id + (if artboard.clip {
            1nat
        } else {
            0
        }) + ids_used_elems(artboard.graphic_group.elements@),
        final(render).svg.segments@.len() >= old(render).svg.segments@.len(),
        final(render).svg.segments@.take(old(render).svg.segments@.len() as int) == old(
            render,
        ).svg.segments@,
        final(render).image_data@.len() == old(render).image_data@.len() + images_used_elems(
            artboard.graphic_group.elements@,
        ),
        final(render).image_data@.take(old(render).image_data@.len() as int) == old(
            render,
        ).image_data@,
        forall|k: int|
            old(render).image_data@.len() <= k < final(render).image_data@.len() ==> old(
                render,
            ).next_id <= (#[trigger] final(render).image_data@[k]).0 < final(render).next_id,
        forall|k1: int, k2: int|
            old(render).image_data@.len() <= k1 < k2 < final(render).image_data@.len() ==> (
            #[trigger] final(render).image_data@[k1]).0 < (
            #[trigger] final(render).image_data@[k2]).0,
        final(render).transform == old(render).transform,
        final(render).indent == old(render).indent,
    decreases *artboard,
{
    let ghost t = old(render).transform;
    let ghost ind = old(render).indent as nat;
    let ghost nid = old(render).next_id as int;
    let ghost g0 = render.svg.segments@;

    // Background rectangle and label.
    artboard_prologue(artboard, render);
    let ghost g4 = render.svg.segments@;

    // Contents group, clipped to the artboard rectangle when requested.
    artboard_contents(artboard, render, render_params);
    proof {
        assert(list_view(render.svg.segments@) =~= list_view(g0) + artboard_text(
            *artboard,
            t,
            ind,
            nid,
        ));
        lemma_prefix_trans(g0, g4, render.svg.segments@);
    }
}

/// Emits the artboard's contents group: draws the clip identifier and
/// definition when clipping, renders the children one level deeper, and
/// collapses the group to a self-closing tag when they produce nothing.
#[verifier::rlimit(100)]
#[verifier::spinoff_prover]
fn artboard_contents(artboard: &Artboard, render: &mut SvgRender, render_params: &RenderParams)
    requires
        renderable_elems(artboard.graphic_group.elements@),
        old(render).next_id + (if artboard.clip {
            1nat
        } else {
            0
        }) + ids_used_elems(artboard.graphic_group.elements@) <= u64::MAX,
        old(render).indent + 1 + nest_depth_elems(artboard.graphic_group.elements@)
            <= usize::MAX,
    ensures
        list_view(final(render).svg.segments@) == list_view(old(render).svg.segments@)
            + artboard_contents_text(
            *artboard,
            old(render).transform,
            old(render).indent as nat,
            old(render).next_id as int,
        ),
        final(render).svg_defs@ == old(render).svg_defs@ + defs_text(
            GraphicElementData::Artboard(Box::new(*artboard)),
            old(render).next_id as int,
        ),
        final(render).next_id == old(render).next_id + (if artboard.clip {
            1nat
        } else {
            0
        }) + ids_used_elems(artboard.graphic_group.elements@),
        final(render).svg.segments@.len() >= old(render).svg.segments@.len(),
        final(render).svg.segments@.take(old(render).svg.segments@.len() as int) == old(
            render,
        ).svg.segments@,
        final(render).image_data@.len() == old(render).image_data@.len() + images_used_elems(
            artboard.graphic_group.elements@,
        ),
        final(render).image_data@.take(old(render).image_data@.len() as int) == old(
            render,
        ).image_data@,
        forall|k: int|
            old(render).image_data@.len() <= k < final(render).image_data@.len() ==> old(
                render,
            ).next_id <= (#[trigger] final(render).image_data@[k]).0 < final(render).next_id,
        forall|k1: int, k2: int|
            old(render).image_data@.len() <= k1 < k2 < final(render).image_data@.len() ==> (
            #[trigger] final(render).image_data@[k1]).0 < (
            #[trigger] final(render).image_data@[k2]).0,
        final(render).transform == old(render).transform,
        final(render).indent == old(render).indent,
    decreases artboard.graphic_group,
{
    let ghost t = old(render).transform;
    let ghost ind = old(render).indent as nat;
    let ghost nid = old(render).next_id as int;
    let ghost g4 = render.svg.segments@;
    let ghost defs0 = render.svg_defs@;
    let attrs = artboard_contents_attrs(artboard, render);
    let ghost clip_ids: int = if artboard.clip {
        1int
    } else {
        0
    };
    let mark = render.parent_tag_open("g", attrs);
    let ghost g5 = render.svg.segments@;
    let ghost state5 = *render;
    proof {
        assert(g5.take(g4.len() as int) == g5.take(g4.len() as int));
        assert(render.image_data@.take(old(render).image_data@.len() as int)
            =~= old(render).image_data@);
        assert(list_view(g5) =~= list_view(g4) + open_text(
            ind,
            "g"@,
            contents_attrs_text(*artboard, nid),
        ));
    }
    render_group(&artboard.graphic_group.elements, render, render_params);
    let ghost g6 = render.svg.segments@;
    let ghost children = group_text(artboard.graphic_group.elements@, t, ind + 1, nid + clip_ids);
    proof {
        lemma_prefix_trans(g4, g5, g6);
        lemma_prefix_trans(old(render).image_data@, state5.image_data@, render.image_data@);
        assert(list_view(g6) =~= list_view(g5) + children);
    }
    render.parent_tag_close("g", mark);
    proof {
        let g7 = render.svg.segments@;
        let contents_open = "\n"@ + tabs_seq(ind) + "<"@ + "g"@ + contents_attrs_text(
            *artboard,
            nid,
        );
        if g6.len() == mark {
            // The contents rendered nothing: the open tag collapses.
            assert(g6.take(g5.len() as int) == g5 && g6.len() == g5.len());
            assert(g6 =~= g5);
            assert(list_view(g6) =~= list_view(g5));
            assert(children.len() == 0);
            assert(children =~= Seq::<char>::empty());
            assert(g7 == g6.drop_last().push(SvgSegment::Slice("/>")));
            assert(g5.last() == SvgSegment::Slice(">"));
            lemma_list_view_push(g6.drop_last(), SvgSegment::Slice("/>"));
            reveal_strlit("/>");
            reveal_strlit(">");
            assert(list_view(g5) =~= list_view(g5.drop_last()) + ">"@);
            assert(list_view(g5) =~= list_view(g4) + contents_open + ">"@);
            assert(list_view(g5.drop_last()) =~= (list_view(g4) + contents_open + ">"@).take(
                list_view(g5).len() - 1,
            ));
            assert(list_view(g5.drop_last()) =~= list_view(g4) + contents_open);
            assert(list_view(g7) =~= list_view(g4) + contents_open + "/>"@);
            assert(list_view(g7) =~= list_view(g4) + artboard_contents_text(
                *artboard,
                t,
                ind,
                nid,
            ));
            assert(g5.len() >= g4.len() + 1);
            assert forall|i: int| 0 <= i < g4.len() implies g7.take(g4.len() as int)[i]
                == g4[i] by {
                assert(g7.take(g4.len() as int)[i] == g7[i]);
                assert(g7[i] == g6.drop_last()[i]);
                assert(g6.drop_last()[i] == g6[i]);
                assert(g6.take(g4.len() as int)[i] == g6[i]);
            }
            assert(g7.take(g4.len() as int) =~= g4);
        } else {
            assert(children.len() > 0) by {
                if children.len() == 0 {
                    assert(children =~= Seq::<char>::empty());
                    assert(g6 == g5);
                }
            };
            assert(children != Seq::<char>::empty());
            lemma_prefix_trans(g4, g6, g7);
            assert(list_view(g7) =~= list_view(g6) + close_text(ind, "g"@));
            assert(list_view(g7) =~= list_view(g4) + artboard_contents_text(
                *artboard,
                t,
                ind,
                nid,
            ));
        }
        assert(render.svg_defs@ =~= old(render).svg_defs@ + defs_text(
            GraphicElementData::Artboard(Box::new(*artboard)),
            nid,
        ));
    }
}
impl SvgRender {
    /// The text of the outer container's opening: the fixed preamble, the
    /// view box spanning the given bounds, and the collected definitions.
    pub open spec fn svg_header_text(bounds_min: Vec2F, bounds_max: Vec2F, defs: Seq<char>) -> Seq<
        char,
    > {
        "<svg xmlns=\"http://www.w3.org/2000/svg\" viewBox=\""@ + fixed_dec_seq(
            bounds_min.x.micros as int,
        ) + " "@ + fixed_dec_seq(bounds_min.y.micros as int) + " "@ + fixed_dec_seq(
            bounds_max.x.sub_spec(bounds_min.x).micros as int,
        ) + " "@ + fixed_dec_seq(bounds_max.y.sub_spec(bounds_min.y).micros as int) + "\"><defs>"@
            + defs + "</defs>"@
    }

    /// Wraps the rendered markup in an outer sized container tag holding the
    /// collected definitions: one header segment is placed in front, the
    /// closing tag behind, and everything else is untouched.
    pub fn format_svg(&mut self, bounds_min: Vec2F, bounds_max: Vec2F)
        ensures
            final(self).svg.segments@.len() == old(self).svg.segments@.len() + 2,
            seg_view(final(self).svg.segments@[0]) == Self::svg_header_text(
                bounds_min,
                bounds_max,
                old(self).svg_defs@,
            ),
            final(self).svg.segments@.subrange(
                1,
                final(self).svg.segments@.len() - 1,
            ) == old(self).svg.segments@,
            final(self).svg.segments@.last() == SvgSegment::Slice("</svg>"),
            final(self).svg_defs == old(self).svg_defs,
            final(self).transform == old(self).transform,
            final(self).image_data == old(self).image_data,
            final(self).indent == old(self).indent,
            final(self).next_id == old(self).next_id,
    {
        let x = bounds_min.x;
        let y = bounds_min.y;
        let size_x = bounds_max.x.sub(bounds_min.x);
        let size_y = bounds_max.y.sub(bounds_min.y);
        let mut header = String::from_str(
            "<svg xmlns=\"http://www.w3.org/2000/svg\" viewBox=\"",
        );
        header.append(fixed_to_string(x).as_str());
        header.append(" ");
        header.append(fixed_to_string(y).as_str());
        header.append(" ");
        header.append(fixed_to_string(size_x).as_str());
        header.append(" ");
        header.append(fixed_to_string(size_y).as_str());
        header.append("\"><defs>");
        header.append(self.svg_defs.as_str());
        header.append("</defs>");
        proof {
            assert(header@ =~= Self::svg_header_text(bounds_min, bounds_max, self.svg_defs@));
        }
        let ghost base = self.svg.segments@;
        self.svg.segments.insert(0, SvgSegment::Owned(header));
        self.svg.push(SvgSegment::Slice("</svg>"));
        proof {
            assert(final(self).svg.segments@.subrange(
                1,
                final(self).svg.segments@.len() - 1,
            ) =~= base);
        }
    }
}

/// The union of two children's boxes does not depend on their order: a group
/// of two elements has the same bounding box as the group with the elements
/// swapped.
pub proof fn lemma_group_bbox_commutative(a: GraphicElement, b: GraphicElement, t: Affine)
    ensures
        group_bbox_spec(seq![a, b], t) == group_bbox_spec(seq![b, a], t),
{
    let sab = seq![a, b];
    let sba = seq![b, a];
    let ba = bounding_box_spec(a.graphic_element_data, t);
    let bb = bounding_box_spec(b.graphic_element_data, t);
    assert(group_bbox_spec(Seq::<GraphicElement>::empty(), t) == Option::<Rect>::None);
    assert(seq![a].drop_last() =~= Seq::<GraphicElement>::empty());
    assert(seq![a].last() == a);
    assert(group_bbox_spec(seq![a], t) == merge_bounds(Option::None, ba));
    assert(seq![b].drop_last() =~= Seq::<GraphicElement>::empty());
    assert(seq![b].last() == b);
    assert(group_bbox_spec(seq![b], t) == merge_bounds(Option::None, bb));
    assert(sab.drop_last() =~= seq![a]);
    assert(sab.last() == b);
    assert(group_bbox_spec(sab, t) == merge_bounds(merge_bounds(Option::None, ba), bb));
    assert(sba.drop_last() =~= seq![b]);
    assert(sba.last() == a);
    assert(group_bbox_spec(sba, t) == merge_bounds(merge_bounds(Option::None, bb), ba));
}

/// The union over children is associative: grouping three children as
/// `[[a, b], c]` or `[a, [b, c]]` yields the same bounding box.
#[verifier::rlimit(60)]
pub proof fn lemma_group_bbox_associative(
    a: GraphicElement,
    b: GraphicElement,
    c: GraphicElement,
    t: Affine,
)
    ensures
        merge_bounds(
            group_bbox_spec(seq![a, b], t),
            bounding_box_spec(c.graphic_element_data, t),
        ) == merge_bounds(
            bounding_box_spec(a.graphic_element_data, t),
            group_bbox_spec(seq![b, c], t),
        ),
{
    let sab = seq![a, b];
    let sbc = seq![b, c];
    let ba = bounding_box_spec(a.graphic_element_data, t);
    let bb = bounding_box_spec(b.graphic_element_data, t);
    let bc = bounding_box_spec(c.graphic_element_data, t);
    assert(group_bbox_spec(Seq::<GraphicElement>::empty(), t) == Option::<Rect>::None);
    assert(seq![a].drop_last() =~= Seq::<GraphicElement>::empty());
    assert(seq![a].last() == a);
    assert(group_bbox_spec(seq![a], t) == merge_bounds(Option::None, ba));
    assert(seq![b].drop_last() =~= Seq::<GraphicElement>::empty());
    assert(seq![b].last() == b);
    assert(group_bbox_spec(seq![b], t) == merge_bounds(Option::None, bb));
    assert(sab.drop_last() =~= seq![a]);
    assert(sab.last() == b);
    assert(group_bbox_spec(sab, t) == merge_bounds(merge_bounds(Option::None, ba), bb));
    assert(sbc.drop_last() =~= seq![b]);
    assert(sbc.last() == c);
    assert(group_bbox_spec(sbc, t) == merge_bounds(merge_bounds(Option::None, bb), bc));
    if ba is Some && bb is Some && bc is Some {
        crate::geom::lemma_combine_bounds_associative(ba->0, bb->0, bc->0);
    }
}

/// A scene value whose local linear transform is zero has no bounding box,
/// whatever its translation and the accumulated transform: the composed
/// transform collapses the unit square to a single point.
pub proof fn lemma_zero_linear_image_frame_no_bbox(frame: ImageFrame, t: Affine)
    requires
        frame.transform.linear_is_zero(),
    ensures
        image_frame_bbox_spec(frame, t) is None,
{
    let composed = frame.transform.compose_spec(t);
    assert(crate::fixed::fixed_mul_spec(0, t.a.micros as int) == 0);
}

} // verus!
