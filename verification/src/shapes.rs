//! Selection of the shapes that a node can be rescaled to.

use crate::model::{Architecture, PriceEntry, PriceEntryView, Shape, ShapeView};
use vstd::prelude::*;

verus! {

/// The monthly price of a shape at the location asked for.
#[derive(Clone, Debug, PartialEq, Eq)]
pub enum Price {
    /// The gross monthly price, in the provider's wording.
    Monthly { gross: String },
    /// The shape has no price at that location.
    NotAvailable,
}

/// The view of a [`Price`].
pub enum PriceView {
    Monthly { gross: Seq<char> },
    NotAvailable,
}

impl View for Price {
    type V = PriceView;

    open spec fn view(&self) -> PriceView {
        match *self {
            Price::Monthly { gross } => PriceView::Monthly { gross: gross@ },
            Price::NotAvailable => PriceView::NotAvailable,
        }
    }
}

/// A shape that a node can be rescaled to, with its price at the node's
/// location. `index` is the position of the shape in the catalog it was
/// selected from.
#[derive(Clone, Debug, PartialEq, Eq)]
pub struct CompatibleShape {
    pub index: usize,
    pub id: i64,
    pub name: String,
    pub cores: i32,
    pub disk: i64,
    pub price: Price,
}

/// The view of a [`CompatibleShape`].
pub struct CompatibleShapeView {
    pub index: int,
    pub id: i64,
    pub name: Seq<char>,
    pub cores: i32,
    pub disk: i64,
    pub price: PriceView,
}

impl View for CompatibleShape {
    type V = CompatibleShapeView;

    open spec fn view(&self) -> CompatibleShapeView {
        CompatibleShapeView {
            index: self.index as int,
            id: self.id,
            name: self.name@,
            cores: self.cores,
            disk: self.disk,
            price: self.price@,
        }
    }
}

/// The views of a list of compatible shapes, in order.
pub open spec fn offers_view(offers: Seq<CompatibleShape>) -> Seq<CompatibleShapeView> {
    offers.map_values(|o: CompatibleShape| o@)
}

/// The price that the first entry for `location` gives, or the sentinel
/// when no entry is for `location`.
pub open spec fn spec_price_at(prices: Seq<PriceEntryView>, location: Seq<char>) -> PriceView
    decreases prices.len(),
{
    if prices.len() == 0 {
        PriceView::NotAvailable
    } else if prices[0].location == location {
        PriceView::Monthly { gross: prices[0].monthly_gross }
    } else {
        spec_price_at(prices.drop_first(), location)
    }
}

/// Whether a node with a primary disk of `min_disk` GiB and the given
/// architecture can take the shape: the shape's disk is no smaller and the
/// architectures agree.
pub open spec fn spec_is_compatible(
    shape: ShapeView,
    min_disk: int,
    architecture: Architecture,
) -> bool {
    shape.disk >= min_disk && shape.architecture == architecture
}

/// The offer made for the catalog entry at `index`.
pub open spec fn spec_offer(index: int, shape: ShapeView, location: Seq<char>) -> CompatibleShapeView {
    CompatibleShapeView {
        index,
        id: shape.id,
        name: shape.name,
        cores: shape.cores,
        disk: shape.disk,
        price: spec_price_at(shape.prices, location),
    }
}

/// The offers for the compatible entries of `catalog`, in catalog order.
pub open spec fn spec_compatible_shapes(
    catalog: Seq<ShapeView>,
    min_disk: int,
    architecture: Architecture,
    location: Seq<char>,
) -> Seq<CompatibleShapeView>
    decreases catalog.len(),
{
    if catalog.len() == 0 {
        Seq::empty()
    } else {
        let earlier = spec_compatible_shapes(catalog.drop_last(), min_disk, architecture, location);
        if spec_is_compatible(catalog.last(), min_disk, architecture) {
            earlier.push(spec_offer(catalog.len() - 1, catalog.last(), location))
        } else {
            earlier
        }
    }
}

/// The sentinel price is attached exactly when no entry of the price list is
/// for the location asked for; otherwise the first such entry gives the
/// price.
pub proof fn law_price_sentinel(prices: Seq<PriceEntryView>, location: Seq<char>)
    ensures
        spec_price_at(prices, location) is NotAvailable <==> forall|i: int|
            0 <= i < prices.len() ==> (#[trigger] prices[i]).location != location,
        spec_price_at(prices, location) matches PriceView::Monthly { gross } ==> exists|i: int|
            0 <= i < prices.len() && (#[trigger] prices[i]).location == location
                && prices[i].monthly_gross == gross && forall|j: int|
                0 <= j < i ==> (#[trigger] prices[j]).location != location,
    decreases prices.len(),
{
    if prices.len() > 0 {
        let rest = prices.drop_first();
        law_price_sentinel(rest, location);
        if prices[0].location == location {
            assert(prices[0].location == location && forall|j: int|
                0 <= j < 0 ==> (#[trigger] prices[j]).location != location);
        } else {
            assert forall|i: int| 0 <= i < rest.len() implies (#[trigger] rest[i]) == prices[i + 1] by {}
            if spec_price_at(prices, location) is NotAvailable {
                assert forall|i: int| 0 <= i < prices.len() implies (#[trigger] prices[i]).location
                    != location by {
                    if i > 0 {
                        assert(rest[i - 1] == prices[i]);
                    }
                }
            } else {
                let k = choose|i: int|
                    0 <= i < rest.len() && (#[trigger] rest[i]).location == location
                        && rest[i].monthly_gross == spec_price_at(rest, location)->gross
                        && forall|j: int| 0 <= j < i ==> (#[trigger] rest[j]).location != location;
                assert(prices[k + 1] == rest[k]);
                assert forall|j: int| 0 <= j < k + 1 implies (#[trigger] prices[j]).location
                    != location by {
                    if j > 0 {
                        assert(rest[j - 1] == prices[j]);
                    }
                }
                assert(prices[k + 1].location == location);
            }
        }
    }
}

/// The offers are exactly the compatible catalog entries, each once and in
/// catalog order: no offer is made for a shape whose disk is smaller than
/// `min_disk` or whose architecture differs, every other shape gets one, and
/// each offer repeats its shape and prices it at `location`.
pub proof fn law_offers_are_the_compatible_shapes(
    catalog: Seq<ShapeView>,
    min_disk: int,
    architecture: Architecture,
    location: Seq<char>,
)
    ensures
        ({
            let offers = spec_compatible_shapes(catalog, min_disk, architecture, location);
            &&& offers.len() <= catalog.len()
            &&& forall|k: int|
                0 <= k < offers.len() ==> {
                    let i = (#[trigger] offers[k]).index;
                    &&& 0 <= i < catalog.len()
                    &&& catalog[i].disk >= min_disk
                    &&& catalog[i].architecture == architecture
                    &&& offers[k] == spec_offer(i, catalog[i], location)
                }
            &&& forall|i: int|
                0 <= i < catalog.len() && spec_is_compatible(
                    #[trigger] catalog[i],
                    min_disk,
                    architecture,
                ) ==> exists|k: int| 0 <= k < offers.len() && (#[trigger] offers[k]).index == i
            &&& forall|j: int, k: int|
                0 <= j < k < offers.len() ==> (#[trigger] offers[j]).index < (
                #[trigger] offers[k]).index
        }),
    decreases catalog.len(),
{
    if catalog.len() > 0 {
        let shorter = catalog.drop_last();
        let earlier = spec_compatible_shapes(shorter, min_disk, architecture, location);
        let offers = spec_compatible_shapes(catalog, min_disk, architecture, location);
        let last = catalog.len() - 1;
        law_offers_are_the_compatible_shapes(shorter, min_disk, architecture, location);
        assert forall|k: int| 0 <= k < earlier.len() implies (#[trigger] offers[k]) == earlier[k] by {}
        assert forall|k: int| 0 <= k < offers.len() implies {
            let i = (#[trigger] offers[k]).index;
            &&& 0 <= i < catalog.len()
            &&& catalog[i].disk >= min_disk
            &&& catalog[i].architecture == architecture
            &&& offers[k] == spec_offer(i, catalog[i], location)
        } by {
            if k < earlier.len() {
                assert(offers[k] == earlier[k]);
                assert(shorter[earlier[k].index] == catalog[earlier[k].index]);
            }
        }
        assert forall|i: int|
            0 <= i < catalog.len() && spec_is_compatible(
                #[trigger] catalog[i],
                min_disk,
                architecture,
            ) implies exists|k: int| 0 <= k < offers.len() && (#[trigger] offers[k]).index == i by {
            if i < last {
                assert(shorter[i] == catalog[i]);
                let k = choose|k: int| 0 <= k < earlier.len() && (#[trigger] earlier[k]).index == i;
                assert(offers[k].index == i);
            } else {
                assert(offers[offers.len() - 1].index == i);
            }
        }
        assert forall|j: int, k: int| 0 <= j < k < offers.len() implies (#[trigger] offers[j]).index
            < (#[trigger] offers[k]).index by {
            if k < earlier.len() {
                assert(offers[j] == earlier[j] && offers[k] == earlier[k]);
            } else {
                assert(offers[j] == earlier[j]);
            }
        }
    }
}

/// Looks up the monthly price for `location` among `prices`.
///
/// The first entry for the location decides; when there is none the result
/// is [`Price::NotAvailable`].
pub fn price_at(prices: &Vec<PriceEntry>, location: &String) -> (price: Price)
    ensures
        price@ == spec_price_at(prices@.map_values(|p: PriceEntry| p@), location@),
{
    let ghost views = prices@.map_values(|p: PriceEntry| p@);
    let mut i: usize = 0;
    proof {
        assert(views.subrange(0, views.len() as int) =~= views);
    }
    while i < prices.len()
        invariant
            i <= prices.len(),
            views == prices@.map_values(|p: PriceEntry| p@),
            spec_price_at(views, location@) == spec_price_at(
                views.subrange(i as int, views.len() as int),
                location@,
            ),
        decreases prices.len() - i,
    {
        let ghost tail = views.subrange(i as int, views.len() as int);
        proof {
            assert(tail[0] == prices@[i as int]@);
            assert(tail.drop_first() =~= views.subrange(i + 1, views.len() as int));
        }
        if prices[i].location == *location {
            return Price::Monthly { gross: prices[i].monthly_gross.clone() };
        }
        i += 1;
    }
    proof {
        assert(views.subrange(i as int, views.len() as int) =~= Seq::<PriceEntryView>::empty());
    }
    Price::NotAvailable
}

/// Whether a node with a primary disk of `min_disk` GiB and the given
/// architecture can take `shape`.
pub fn is_compatible(shape: &Shape, min_disk: i64, architecture: Architecture) -> (ok: bool)
    ensures
        ok == spec_is_compatible(shape@, min_disk as int, architecture),
{
    shape.disk >= min_disk && shape.architecture == architecture
}

/// Selects from `catalog` the shapes that a node can be rescaled to and
/// prices each at `location`.
///
/// A shape is kept exactly when its disk is at least `min_disk` GiB and its
/// architecture is `architecture`. The result follows catalog order; a kept
/// shape without a price at `location` carries [`Price::NotAvailable`].
pub fn compatible_shapes(
    catalog: &Vec<Shape>,
    min_disk: i64,
    architecture: Architecture,
    location: &String,
) -> (offers: Vec<CompatibleShape>)
    ensures
        offers_view(offers@) == spec_compatible_shapes(
            crate::model::catalog_view(catalog@),
            min_disk as int,
            architecture,
            location@,
        ),
{
    let ghost views = crate::model::catalog_view(catalog@);
    let mut offers: Vec<CompatibleShape> = Vec::new();
    let mut i: usize = 0;
    proof {
        assert(views.subrange(0, 0) =~= Seq::<ShapeView>::empty());
        assert(offers_view(offers@) =~= Seq::<CompatibleShapeView>::empty());
    }
    while i < catalog.len()
        invariant
            i <= catalog.len(),
            views == crate::model::catalog_view(catalog@),
            offers_view(offers@) == spec_compatible_shapes(
                views.subrange(0, i as int),
                min_disk as int,
                architecture,
                location@,
            ),
        decreases catalog.len() - i,
    {
        let ghost upto = views.subrange(0, i + 1);
        let ghost before = offers@;
        proof {
            assert(upto.drop_last() =~= views.subrange(0, i as int));
            assert(upto.last() == catalog@[i as int]@);
        }
        let shape = &catalog[i];
        if is_compatible(shape, min_disk, architecture) {
            let offer = CompatibleShape {
                index: i,
                id: shape.id,
                name: shape.name.clone(),
                cores: shape.cores,
                disk: shape.disk,
                price: price_at(&shape.prices, location),
            };
            offers.push(offer);
            proof {
                assert(offers_view(offers@) =~= offers_view(before).push(offer@));
            }
        }
        i += 1;
    }
    proof {
        assert(views.subrange(0, i as int) =~= views);
    }
    offers
}

} // verus!
