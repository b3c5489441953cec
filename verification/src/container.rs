//! The containers a rack is cut for.

use vstd::prelude::*;
use vstd::arithmetic::overflow::CheckedUsize;

verus! {

/// The measures of one container, all in one unit.
#[derive(Clone, Copy, Debug, PartialEq, Eq, Structural)]
pub struct ContainerDimensions {
    pub width: usize,
    pub depth: usize,
    pub height: usize,
    /// From the top of the container down to its side wing.
    pub side_wing_from_box_top: usize,
    /// How far the side wing stands out; the wing panels are this wide.
    pub side_wing_width: usize,
}

impl ContainerDimensions {
    /// Every measure multiplied by `factor` stays a machine integer.
    pub open spec fn scales_by(self, factor: int) -> bool {
        &&& self.width * factor <= usize::MAX
        &&& self.depth * factor <= usize::MAX
        &&& self.height * factor <= usize::MAX
        &&& self.side_wing_from_box_top * factor <= usize::MAX
        &&& self.side_wing_width * factor <= usize::MAX
    }

    /// The same container measured in a unit `factor` times finer.
    pub open spec fn scaled(self, factor: int) -> ContainerDimensions {
        ContainerDimensions {
            width: (self.width * factor) as usize,
            depth: (self.depth * factor) as usize,
            height: (self.height * factor) as usize,
            side_wing_from_box_top: (self.side_wing_from_box_top * factor) as usize,
            side_wing_width: (self.side_wing_width * factor) as usize,
        }
    }

    /// Decides whether every measure multiplied by `factor` stays a machine
    /// integer.
    pub fn can_scale(&self, factor: usize) -> (fits: bool)
        ensures
            fits == self.scales_by(factor as int),
    {
        !CheckedUsize::new(self.width).mul_value(factor).is_overflowed() && !CheckedUsize::new(
            self.depth,
        ).mul_value(factor).is_overflowed() && !CheckedUsize::new(self.height).mul_value(
            factor,
        ).is_overflowed() && !CheckedUsize::new(self.side_wing_from_box_top).mul_value(
            factor,
        ).is_overflowed() && !CheckedUsize::new(self.side_wing_width).mul_value(
            factor,
        ).is_overflowed()
    }

    /// Converts the measures to a unit `factor` times finer.
    pub fn scale(&self, factor: usize) -> (finer: ContainerDimensions)
        requires
            self.scales_by(factor as int),
        ensures
            finer == self.scaled(factor as int),
            finer.width == self.width * factor,
            finer.depth == self.depth * factor,
            finer.height == self.height * factor,
            finer.side_wing_from_box_top == self.side_wing_from_box_top * factor,
            finer.side_wing_width == self.side_wing_width * factor,
    {
        assert(0 <= self.width * factor && 0 <= self.depth * factor && 0 <= self.height * factor
            && 0 <= self.side_wing_from_box_top * factor && 0 <= self.side_wing_width * factor)
            by (nonlinear_arith);
        ContainerDimensions {
            width: self.width * factor,
            depth: self.depth * factor,
            height: self.height * factor,
            side_wing_from_box_top: self.side_wing_from_box_top * factor,
            side_wing_width: self.side_wing_width * factor,
        }
    }
}

/// A web address, carried through as it was given.
#[verifier::external_type_specification]
#[verifier::external_body]
pub struct ExUrl(url::Url);

/// `Url::clone`, which the derived `Clone` of a link calls. Nothing is
/// claimed of the copy.
pub assume_specification[ <url::Url as std::clone::Clone>::clone ](url: &url::Url) -> (copy:
    url::Url)
;

/// A page about a container.
#[derive(Debug, Clone)]
pub struct ContainerLink {
    pub url: url::Url,
    pub title: String,
}

/// One entry of a container catalogue. Its dimensions are in millimetres.
#[derive(Debug, Clone)]
pub struct Container {
    pub vendor: String,
    pub model: String,
    pub description: String,
    pub links: Vec<ContainerLink>,
    pub dimensions: ContainerDimensions,
}

/// The lower-case form of a text, as `str::to_lowercase` computes it.
pub uninterp spec fn lowercase(text: Seq<char>) -> Seq<char>;

/// `text` with every `from` exchanged for `to`.
pub open spec fn substituted(text: Seq<char>, from: char, to: Seq<char>) -> Seq<char>
    decreases text.len(),
{
    if text.len() == 0 {
        Seq::empty()
    } else {
        substituted(text.drop_last(), from, to) + (if text.last() == from {
            to
        } else {
            seq![text.last()]
        })
    }
}

/// The key a container is looked up by: vendor and model joined by a hyphen,
/// in lower case, with an underscore for every space.
pub open spec fn container_key(vendor: Seq<char>, model: Seq<char>) -> Seq<char> {
    substituted(lowercase(vendor + seq!['-'] + model), ' ', seq!['_'])
}

/// Calls `str::to_lowercase`. The result is a function of the text alone; it
/// is named, not spelled out.
#[verifier::external_body]
fn to_lowercase(text: &str) -> (lower: String)
    ensures
        lower@ == lowercase(text@),
{
    text.to_lowercase()
}

/// `text` with every `from` exchanged for `to`; all other characters stay in
/// place.
fn replace(text: &str, from: char, to: &str) -> (replaced: String)
    ensures
        replaced@ == substituted(text@, from, to@),
{
    let mut replaced = String::new();
    let length = text.unicode_len();
    for i in 0..length
        invariant
            length == text@.len(),
            replaced@ == substituted(text@.take(i as int), from, to@),
    {
        let c = text.get_char(i);
        proof {
            assert(text@.take(i + 1).drop_last() =~= text@.take(i as int));
            assert(text@.take(i + 1).last() == c);
            assert(text@.subrange(i as int, i + 1) =~= seq![c]);
        }
        if c == from {
            replaced.append(to);
        } else {
            replaced.append(text.substring_char(i, i + 1));
        }
    }
    assert(text@.take(length as int) =~= text@);
    replaced
}

/// `lowered` with an underscore for every space: the last step of a key.
pub fn key_from_lowercase(lowered: &str) -> (key: String)
    ensures
        key@ == substituted(lowered@, ' ', seq!['_']),
{
    proof {
        reveal_strlit("_");
        assert("_"@ =~= seq!['_']);
    }
    replace(lowered, ' ', "_")
}

impl Container {
    /// The key this container is looked up by.
    pub fn key(&self) -> (key: String)
        ensures
            key@ == container_key(self.vendor@, self.model@),
    {
        proof {
            reveal_strlit("-");
            assert("-"@ =~= seq!['-']);
        }
        let joined = self.vendor.clone().concat("-").concat(self.model.as_str());
        let lowered = to_lowercase(joined.as_str());
        key_from_lowercase(lowered.as_str())
    }
}

/// Position of the first container in `containers` whose key is `key` in
/// lower case, if there is one: the case of `key` does not matter.
pub fn find_container(containers: &Vec<Container>, key: &str) -> (found: Option<usize>)
    ensures
        match found {
            Some(index) => {
                &&& index < containers.len()
                &&& container_key(containers[index as int].vendor@, containers[index as int].model@)
                    == lowercase(key@)
                &&& forall|earlier: int|
                    0 <= earlier < index ==> container_key(
                        #[trigger] containers[earlier].vendor@,
                        containers[earlier].model@,
                    ) != lowercase(key@)
            },
            None => forall|index: int|
                0 <= index < containers.len() ==> container_key(
                    #[trigger] containers[index].vendor@,
                    containers[index].model@,
                ) != lowercase(key@),
        },
{
    let wanted = to_lowercase(key);
    for index in 0..containers.len()
        invariant
            wanted@ == lowercase(key@),
            forall|earlier: int|
                0 <= earlier < index ==> container_key(
                    #[trigger] containers[earlier].vendor@,
                    containers[earlier].model@,
                ) != lowercase(key@),
    {
        if containers[index].key() == wanted {
            return Some(index);
        }
    }
    None
}

/// Exchanging a character for one other character keeps every character in
/// its place and changes none but the ones exchanged.
pub proof fn lemma_substituted_one_for_one(text: Seq<char>, from: char, to: char)
    ensures
        substituted(text, from, seq![to]) == text.map_values(
            |c: char|
                if c == from {
                    to
                } else {
                    c
                },
        ),
    decreases text.len(),
{
    let exchange = |c: char|
        if c == from {
            to
        } else {
            c
        };
    if text.len() == 0 {
        assert(substituted(text, from, seq![to]) =~= text.map_values(exchange));
    } else {
        lemma_substituted_one_for_one(text.drop_last(), from, to);
        assert(substituted(text, from, seq![to]) =~= text.map_values(exchange));
    }
}

/// A key is as long as vendor, hyphen and model in lower case, and holds no
/// space.
pub proof fn lemma_key_has_no_space(vendor: Seq<char>, model: Seq<char>)
    ensures
        container_key(vendor, model).len() == lowercase(vendor + seq!['-'] + model).len(),
        !container_key(vendor, model).contains(' '),
{
    let lowered = lowercase(vendor + seq!['-'] + model);
    lemma_substituted_one_for_one(lowered, ' ', '_');
}

} // verus!
