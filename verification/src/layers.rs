//! The nodes of the layer tree.

use vstd::prelude::*;
use crate::buffers::BufferRequest;
use crate::content_age::ContentAge;
use crate::geometry::{identity, Color, Matrix4, Point2D, Rect, Scalar, Size2D};

verus! {

/// A node of the layer tree.
///
/// A layer owns its children, in the order in which they are painted. Of
/// the operations below only `resize` changes the size of the bounds, and
/// only `contents_changed` changes the age of the content, which it moves
/// forward.
#[derive(Debug)]
pub struct Layer<T> {
    /// The children, first painted first.
    pub children: Vec<Layer<T>>,
    pub transform: Matrix4,
    /// Edge length of a tile, in device pixels.
    pub tile_size: usize,
    /// Whatever the user of the tree attaches to the node.
    pub extra_data: T,
    /// The boundaries of this layer in the coordinate system of the parent
    /// layer.
    pub bounds: Rect<Scalar>,
    /// A counter that only grows and keeps track of the current content
    /// age.
    pub content_age: ContentAge,
    /// The content offset for this layer in unscaled layer pixels.
    pub content_offset: Point2D<Scalar>,
    /// Whether this layer clips its children to its boundaries.
    pub masks_to_bounds: bool,
    /// The background color for this layer.
    pub background_color: Color,
    /// The opacity of this layer, from zero (fully transparent) to one
    /// (fully opaque).
    pub opacity: Scalar,
}

impl<T> Layer<T> {
    /// Whether `after` is this layer with other children and nothing else
    /// changed.
    pub open spec fn same_but_children(&self, after: Layer<T>) -> bool {
        after == (Layer { children: after.children, ..*self })
    }

    /// What `contents_changed` does to a layer: the age of its content moves
    /// forward by one and nothing else changes.
    pub open spec fn changes_to(&self, after: Layer<T>) -> bool {
        &&& self.content_age.steps_to(after.content_age)
        &&& after == (Layer { content_age: after.content_age, ..*self })
    }

    /// The requests that the layer makes for `tiles`: one for each tile, in
    /// their order, each with the age that the layer's content has now.
    pub open spec fn spec_buffer_requests(&self, tiles: Seq<(Rect<usize>, Rect<Scalar>)>) -> Seq<
        BufferRequest,
    > {
        Seq::new(
            tiles.len(),
            |i: int|
                BufferRequest {
                    screen_rect: tiles[i].0,
                    page_rect: tiles[i].1,
                    content_age: self.content_age,
                },
        )
    }

    /// A layer without children, with content that has never changed, the
    /// identity transform, no content offset and no clipping.
    pub fn new(
        bounds: Rect<Scalar>,
        tile_size: usize,
        background_color: Color,
        opacity: Scalar,
        data: T,
    ) -> (layer: Layer<T>)
        ensures
            layer.children@ == Seq::<Layer<T>>::empty(),
            layer.transform == Matrix4::spec_identity(),
            layer.tile_size == tile_size,
            layer.extra_data == data,
            layer.bounds == bounds,
            layer.content_age@ == 0,
            layer.content_offset == (Point2D { x: Scalar::spec_zero(), y: Scalar::spec_zero() }),
            layer.masks_to_bounds == false,
            layer.background_color == background_color,
            layer.opacity == opacity,
    {
        Layer {
            children: Vec::new(),
            transform: identity(),
            bounds,
            tile_size,
            extra_data: data,
            content_age: ContentAge::new(),
            masks_to_bounds: false,
            content_offset: Point2D::new(Scalar::zero(), Scalar::zero()),
            background_color,
            opacity,
        }
    }

    /// The children, open to change.
    pub fn children(&mut self) -> (children: &mut Vec<Layer<T>>)
        ensures
            *children == old(self).children,
            final(self).children == *final(children),
            old(self).same_but_children(*final(self)),
    {
        &mut self.children
    }

    /// Puts a child behind all the others.
    pub fn add_child(&mut self, new_child: Layer<T>)
        ensures
            final(self).children@ == old(self).children@.push(new_child),
            old(self).same_but_children(*final(self)),
    {
        self.children.push(new_child);
    }

    /// Takes out the child at `index`. The children behind it move up by one
    /// place.
    pub fn remove_child_at_index(&mut self, index: usize)
        requires
            index < old(self).children@.len(),
        ensures
            final(self).children@ == old(self).children@.remove(index as int),
            old(self).same_but_children(*final(self)),
    {
        self.children.remove(index);
    }

    /// Gives the layer a new size. Its origin stays.
    pub fn resize(&mut self, new_size: Size2D<Scalar>)
        ensures
            *final(self) == (Layer {
                bounds: Rect { origin: old(self).bounds.origin, size: new_size },
                ..*old(self)
            }),
    {
        self.bounds.size = new_size;
    }

    /// Records that the content has changed: whatever was asked for or
    /// painted before is out of date from now on.
    pub fn contents_changed(&mut self)
        requires
            old(self).content_age.can_advance(),
        ensures
            old(self).changes_to(*final(self)),
    {
        self.content_age.next();
    }

    /// Makes a request for each tile of `tiles`, in their order. A tile is
    /// given by the rectangle it covers on screen and the rectangle of the
    /// page it shows. Every request carries the age that the layer's content
    /// has now.
    pub fn get_buffer_requests(&self, tiles: &Vec<(Rect<usize>, Rect<Scalar>)>) -> (requests: Vec<
        BufferRequest,
    >)
        ensures
            requests@ == self.spec_buffer_requests(tiles@),
    {
        let mut requests: Vec<BufferRequest> = Vec::new();
        let mut k: usize = 0;
        while k < tiles.len()
            invariant
                k <= tiles@.len(),
                requests@ == self.spec_buffer_requests(tiles@.take(k as int)),
            decreases tiles@.len() - k,
        {
            let tile = tiles[k];
            requests.push(BufferRequest::new(tile.0, tile.1, self.content_age));
            k = k + 1;
            assert(requests@ =~= self.spec_buffer_requests(tiles@.take(k as int)));
        }
        assert(tiles@.take(k as int) =~= tiles@);
        requests
    }

    /// A run of invalidations: `run[0]` is the layer at the start and every
    /// later entry is the layer as one more call of `contents_changed` left
    /// it. After `n` calls the age of the content is the first one plus `n`,
    /// it has never gone back on the way, and the layer is otherwise the one
    /// at the start.
    pub proof fn lemma_contents_changed_n_times(run: Seq<Layer<T>>, n: int)
        requires
            0 <= n < run.len(),
            forall|i: int| 0 <= i < run.len() - 1 ==> (#[trigger] run[i]).changes_to(run[i + 1]),
        ensures
            run[n].content_age@ == run[0].content_age@ + n,
            forall|i: int, j: int| 0 <= i <= j <= n ==> run[i].content_age@ <= run[j].content_age@,
            run[n] == (Layer { content_age: run[n].content_age, ..run[0] }),
        decreases n,
    {
        let ages = Seq::new(run.len(), |i: int| run[i].content_age);
        assert forall|i: int| 0 <= i < ages.len() - 1 implies (#[trigger] ages[i]).steps_to(
            ages[i + 1],
        ) by {
            assert(run[i].changes_to(run[i + 1]));
        }
        ContentAge::lemma_run_of_invalidations(ages, n);
        assert forall|i: int, j: int| 0 <= i <= j <= n implies run[i].content_age@
            <= run[j].content_age@ by {
            assert(ages[i]@ <= ages[j]@);
        }
        if n > 0 {
            Self::lemma_contents_changed_n_times(run, n - 1);
            assert(run[n - 1].changes_to(run[n]));
        }
    }

    /// A request keeps the age it was made with. Let `requests` be what
    /// `get_buffer_requests` gave for a layer, and let the layer's content
    /// change one or more times afterwards, which leaves `later`. Then every
    /// request still carries the age that the layer had when it was asked,
    /// and that age is older than the one the layer has now: a tile painted
    /// for the request is recognised as out of date.
    pub proof fn lemma_request_keeps_its_age(
        run: Seq<Layer<T>>,
        tiles: Seq<(Rect<usize>, Rect<Scalar>)>,
        k: int,
    )
        requires
            run.len() >= 2,
            forall|i: int| 0 <= i < run.len() - 1 ==> (#[trigger] run[i]).changes_to(run[i + 1]),
            0 <= k < tiles.len(),
        ensures
            run[0].spec_buffer_requests(tiles)[k].content_age == run[0].content_age,
            run[0].spec_buffer_requests(tiles)[k].content_age.is_stale_at(run.last().content_age),
            run[0].spec_buffer_requests(tiles)[k].content_age != run.last().content_age,
    {
        Self::lemma_contents_changed_n_times(run, run.len() - 1);
        ContentAge::lemma_equal_iff_same_count(run[0].content_age, run.last().content_age);
    }
}

} // verus!
