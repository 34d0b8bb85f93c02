use vstd::prelude::*;

verus! {

/// One downloadable artifact of a release.
#[derive(Clone, Debug)]
pub struct Asset {
    pub url: String,
    pub name: String,
    pub content_type: String,
    pub size: usize,
}

/// One published release of the firmware, as listed by the release feed.
#[derive(Clone, Debug)]
pub struct Release {
    pub tag_name: String,
    pub prerelease: bool,
    pub assets: Vec<Asset>,
}

/// The MIME type of a flashable firmware image.
pub open spec fn firmware_content_type() -> Seq<char> {
    "application/octet-stream"@
}

/// The file suffix of a flashable firmware image.
pub open spec fn firmware_suffix() -> Seq<char> {
    seq!['.', 'b', 'i', 'n']
}

/// `text` ends with `suffix`.
pub open spec fn has_suffix(text: Seq<char>, suffix: Seq<char>) -> bool {
    text.len() >= suffix.len() && text.subrange(text.len() - suffix.len(), text.len() as int)
        == suffix
}

/// An asset is a firmware image when its content type is the firmware MIME
/// type and its name carries the firmware suffix.
pub open spec fn is_firmware_asset(content_type: Seq<char>, name: Seq<char>) -> bool {
    content_type == firmware_content_type() && has_suffix(name, firmware_suffix())
}

/// Whether `name` ends with the firmware suffix.
pub fn has_firmware_suffix(name: &str) -> (r: bool)
    ensures
        r == has_suffix(name@, firmware_suffix()),
{
    let n: usize = name.unicode_len();
    if n < 4 {
        return false;
    }
    let hit = name.get_char(n - 4) == '.' && name.get_char(n - 3) == 'b' && name.get_char(n - 2)
        == 'i' && name.get_char(n - 1) == 'n';
    proof {
        let tail = name@.subrange(n - 4, n as int);
        if hit {
            assert(tail =~= firmware_suffix());
        } else {
            assert(firmware_suffix()[0] == '.' && firmware_suffix()[1] == 'b'
                && firmware_suffix()[2] == 'i' && firmware_suffix()[3] == 'n');
            assert(tail[0] == name@[n - 4] && tail[1] == name@[n - 3] && tail[2] == name@[n - 2]
                && tail[3] == name@[n - 1]);
        }
    }
    hit
}

impl Asset {
    /// Whether this asset is a flashable firmware image.
    pub fn is_firmware(&self) -> (r: bool)
        ensures
            r == is_firmware_asset(self.content_type@, self.name@),
    {
        let wanted: String = "application/octet-stream".to_owned();
        self.content_type == wanted && has_firmware_suffix(self.name.as_str())
    }
}

/// The positions, in order, of the firmware images among `assets`.
pub open spec fn firmware_positions(assets: Seq<Asset>) -> Seq<int>
    decreases assets.len(),
{
    if assets.len() == 0 {
        Seq::<int>::empty()
    } else {
        let before = firmware_positions(assets.drop_last());
        if is_firmware_asset(assets.last().content_type@, assets.last().name@) {
            before.push(assets.len() - 1)
        } else {
            before
        }
    }
}

/// Every firmware position is a position of `assets`, and the asset there is
/// a firmware image.
pub proof fn lemma_firmware_positions_in_range(assets: Seq<Asset>, k: int)
    requires
        0 <= k < firmware_positions(assets).len(),
    ensures
        0 <= firmware_positions(assets)[k] < assets.len(),
        is_firmware_asset(
            assets[firmware_positions(assets)[k]].content_type@,
            assets[firmware_positions(assets)[k]].name@,
        ),
    decreases assets.len(),
{
    if assets.len() > 0 {
        let before = firmware_positions(assets.drop_last());
        if k < before.len() {
            lemma_firmware_positions_in_range(assets.drop_last(), k);
        }
    }
}

/// The positions of `found` as mathematical integers.
pub open spec fn positions_of(found: Seq<usize>) -> Seq<int> {
    found.map_values(|i: usize| i as int)
}

impl Release {
    /// The positions, in feed order, of this release's firmware images.
    pub fn firmware_assets(&self) -> (found: Vec<usize>)
        ensures
            positions_of(found@) == firmware_positions(self.assets@),
    {
        let mut found: Vec<usize> = Vec::new();
        let mut i: usize = 0;
        assert(self.assets@.take(0) =~= Seq::<Asset>::empty());
        assert(positions_of(found@) =~= Seq::<int>::empty());
        while i < self.assets.len()
            invariant
                i <= self.assets.len(),
                positions_of(found@) == firmware_positions(self.assets@.take(i as int)),
            decreases self.assets.len() - i,
        {
            let ghost before = found@;
            assert(self.assets@.take(i + 1).drop_last() =~= self.assets@.take(i as int));
            if self.assets[i].is_firmware() {
                found.push(i);
                assert(positions_of(found@) =~= positions_of(before).push(i as int));
            }
            i = i + 1;
        }
        assert(self.assets@.take(i as int) =~= self.assets@);
        found
    }
}

} // verus!
