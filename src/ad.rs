use vstd::prelude::*;

verus! {

/// The reference creative size that scale factors are relative to.
pub const DEFAULT_WIDTH: u32 = 500;

pub const DEFAULT_HEIGHT: u32 = 500;

/// The decimal digits of `n`, most significant first, without leading zeros.
pub open spec fn decimal(n: nat) -> Seq<char>
    decreases n,
{
    if n < 10 {
        seq![digit(n)]
    } else {
        decimal(n / 10).push(digit(n % 10))
    }
}

pub open spec fn digit(d: nat) -> char {
    if d == 0 {
        '0'
    } else if d == 1 {
        '1'
    } else if d == 2 {
        '2'
    } else if d == 3 {
        '3'
    } else if d == 4 {
        '4'
    } else if d == 5 {
        '5'
    } else if d == 6 {
        '6'
    } else if d == 7 {
        '7'
    } else if d == 8 {
        '8'
    } else {
        '9'
    }
}

/// The key of a creative size: `"{width}x{height}"`.
pub open spec fn size_key(w: nat, h: nat) -> Seq<char> {
    decimal(w) + seq!['x'] + decimal(h)
}

/// Relies on `format!` with `{}` on `u32`: the decimal digits, without padding.
#[verifier::external_body]
fn format_size_key(w: u32, h: u32) -> (r: String)
    ensures
        r@ == size_key(w as nat, h as nat),
{
    format!("{}x{}", w, h)
}

/// Scale, in thousandths, of `size` relative to `reference`.
pub open spec fn scale_permille(size: nat, reference: nat) -> nat {
    size * 1000 / reference
}

/// One ad creative size: its key, its size in pixels, a human name, and its scale
/// relative to the reference size, in thousandths.
#[derive(Clone, Debug)]
pub struct AdSpec {
    pub id: String,
    pub width: u32,
    pub height: u32,
    pub name: String,
    pub scale_x: u64,
    pub scale_y: u64,
}

/// `spec` describes a `w` by `h` creative named `name`.
pub open spec fn describes(spec: AdSpec, w: nat, h: nat, name: Seq<char>) -> bool {
    &&& spec.id@ == size_key(w, h)
    &&& spec.width == w
    &&& spec.height == h
    &&& spec.name@ == name
    &&& spec.scale_x == scale_permille(w, DEFAULT_WIDTH as nat)
    &&& spec.scale_y == scale_permille(h, DEFAULT_HEIGHT as nat)
}

impl AdSpec {
    pub fn new(w: u32, h: u32, name: &str) -> (r: AdSpec)
        ensures
            describes(r, w as nat, h as nat, name@),
    {
        AdSpec {
            id: format_size_key(w, h),
            width: w,
            height: h,
            name: name.to_owned(),
            scale_x: w as u64 * 1000 / DEFAULT_WIDTH as u64,
            scale_y: h as u64 * 1000 / DEFAULT_HEIGHT as u64,
        }
    }

    /// `v` scaled by this creative's vertical scale.
    pub fn scaled_y(&self, v: u32) -> (r: u128)
        ensures
            r == v * self.scale_y / 1000,
    {
        proof {
            assert(v * self.scale_y <= u32::MAX as int * u64::MAX as int) by (nonlinear_arith)
                requires
                    v <= u32::MAX,
                    self.scale_y <= u64::MAX,
            ;
        }
        v as u128 * self.scale_y as u128 / 1000
    }
}

impl Default for AdSpec {
    /// The reference-size creative.
    fn default() -> (r: AdSpec)
        ensures
            describes(r, DEFAULT_WIDTH as nat, DEFAULT_HEIGHT as nat, "Default 500x500"@),
    {
        AdSpec::new(DEFAULT_WIDTH, DEFAULT_HEIGHT, "Default 500x500")
    }
}

/// The preset creative sizes, in the order of their keys.
pub open spec fn preset(i: int) -> (nat, nat, Seq<char>) {
    if i == 0 {
        (120, 600, "Skyscraper"@)
    } else if i == 1 {
        (250, 250, "Square"@)
    } else if i == 2 {
        (300, 250, "Inline Rectangle"@)
    } else {
        (728, 90, "Leaderboard"@)
    }
}

pub const N_PRESETS: usize = 4;

/// The preset creative sizes, ordered by key.
pub fn ad_sizes() -> (r: Vec<AdSpec>)
    ensures
        r@.len() == N_PRESETS,
        forall|i: int|
            0 <= i < N_PRESETS ==> describes(
                #[trigger] r@[i],
                preset(i).0,
                preset(i).1,
                preset(i).2,
            ),
{
    let mut v: Vec<AdSpec> = Vec::new();
    v.push(AdSpec::new(120, 600, "Skyscraper"));
    v.push(AdSpec::new(250, 250, "Square"));
    v.push(AdSpec::new(300, 250, "Inline Rectangle"));
    v.push(AdSpec::new(728, 90, "Leaderboard"));
    proof {
        reveal_strlit("Skyscraper");
        reveal_strlit("Square");
        reveal_strlit("Inline Rectangle");
        reveal_strlit("Leaderboard");
    }
    v
}

/// The preset with the given key, if there is one.
pub fn ad_size(key: &String) -> (r: Option<AdSpec>)
    ensures
        r is None <==> forall|i: int| 0 <= i < N_PRESETS ==> size_key(preset(i).0, preset(i).1) != key@,
        r matches Some(s) ==> s.id@ == key@ && exists|i: int|
            0 <= i < N_PRESETS && describes(s, preset(i).0, preset(i).1, preset(i).2),
{
    let mut sizes = ad_sizes();
    let mut i: usize = 0;
    while i < sizes.len()
        invariant
            sizes@.len() == N_PRESETS,
            forall|k: int|
                0 <= k < N_PRESETS ==> describes(
                    #[trigger] sizes@[k],
                    preset(k).0,
                    preset(k).1,
                    preset(k).2,
                ),
            i <= N_PRESETS,
            forall|k: int| 0 <= k < i ==> size_key(preset(k).0, preset(k).1) != key@,
        decreases N_PRESETS - i,
    {
        if sizes[i].id == *key {
            let s = sizes.remove(i);
            proof {
                assert(describes(s, preset(i as int).0, preset(i as int).1, preset(i as int).2));
            }
            return Some(s);
        }
        proof {
            assert(describes(sizes@[i as int], preset(i as int).0, preset(i as int).1, preset(i as int).2));
        }
        i = i + 1;
    }
    None
}

} // verus!
