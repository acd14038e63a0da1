use vstd::prelude::*;

verus! {

/// The bits, in IEEE 754 single precision, of the smallest cache buffer
/// ratio allowed: one tenth, rounded to single precision.
pub const MIN_CACHE_BUFFER_RATIO_BITS: u32 = 0x3DCC_CCCD;

/// The bits, in IEEE 754 single precision, of the largest cache buffer
/// ratio allowed: one.
pub const MAX_CACHE_BUFFER_RATIO_BITS: u32 = 0x3F80_0000;

/// The bits, in IEEE 754 single precision, of the default cache buffer
/// ratio: eight tenths, rounded to single precision.
pub const DEFAULT_CACHE_BUFFER_RATIO_BITS: u32 = 0x3F4C_CCCD;

/// The largest random jitter, in seconds, before prefetching starts.
pub const MAX_JITTER_SECONDS: u64 = 10;

/// Whether the single-precision number with the bits `bits` lies between one
/// tenth and one, both included.
///
/// A non-negative single-precision number orders as its bits do when read
/// as an unsigned integer; a negative number and a NaN have their highest
/// bit set, or an exponent of all ones, and so lie above the bits of one.
/// Comparing the bits therefore decides the same as comparing the numbers.
pub open spec fn cache_buffer_ratio_in_range(bits: u32) -> bool {
    MIN_CACHE_BUFFER_RATIO_BITS <= bits && bits <= MAX_CACHE_BUFFER_RATIO_BITS
}

/// A single secret to pre-fetch.
#[derive(Debug)]
pub struct SecretPrefetchConfig {
    pub secret_id: String,
    pub role_arn: Option<String>,
}

/// A single tag filter entry for tag-based pre-fetching.
#[derive(Debug)]
pub struct TagFilter {
    pub key: String,
    pub role_arn: Option<String>,
}

/// Top-level prefetch configuration.
#[derive(Debug)]
pub struct PrefetchConfig {
    /// Maximum fraction of cache to fill per caching client (from one tenth
    /// to one), as the bits of the single-precision number.
    pub cache_buffer_ratio_bits: u32,
    /// Maximum random jitter in seconds before starting prefetch (0 - 10).
    /// Helps prevent fleet-wide synchronized API calls. Default is 0 (no jitter).
    pub max_jitter_seconds: u64,
    /// Tag-based filtering: each entry is a { key, role_arn? } tuple.
    pub filter_tags: Vec<TagFilter>,
    /// Explicit secrets to pre-fetch.
    pub secrets: Vec<SecretPrefetchConfig>,
}

/// The contents of a prefetch configuration.
pub struct PrefetchConfigView {
    pub cache_buffer_ratio_bits: u32,
    pub max_jitter_seconds: u64,
    pub filter_tags: Seq<TagFilter>,
    pub secrets: Seq<SecretPrefetchConfig>,
}

impl View for PrefetchConfig {
    type V = PrefetchConfigView;

    open spec fn view(&self) -> PrefetchConfigView {
        PrefetchConfigView {
            cache_buffer_ratio_bits: self.cache_buffer_ratio_bits,
            max_jitter_seconds: self.max_jitter_seconds,
            filter_tags: self.filter_tags@,
            secrets: self.secrets@,
        }
    }
}

/// The prefetch configuration used when none is given: the default ratio,
/// no jitter, and nothing to prefetch.
pub open spec fn default_prefetch_view() -> PrefetchConfigView {
    PrefetchConfigView {
        cache_buffer_ratio_bits: DEFAULT_CACHE_BUFFER_RATIO_BITS,
        max_jitter_seconds: 0,
        filter_tags: Seq::empty(),
        secrets: Seq::empty(),
    }
}

/// Whether a prefetch configuration names anything to prefetch.
pub open spec fn spec_prefetch_enabled(p: PrefetchConfigView) -> bool {
    p.filter_tags.len() > 0 || p.secrets.len() > 0
}

impl Clone for SecretPrefetchConfig {
    fn clone(&self) -> (r: Self)
        ensures
            r == *self,
    {
        SecretPrefetchConfig { secret_id: self.secret_id.clone(), role_arn: self.role_arn.clone() }
    }
}

impl Clone for TagFilter {
    fn clone(&self) -> (r: Self)
        ensures
            r == *self,
    {
        TagFilter { key: self.key.clone(), role_arn: self.role_arn.clone() }
    }
}

impl Clone for PrefetchConfig {
    fn clone(&self) -> (r: Self)
        ensures
            r@ == self@,
    {
        let filter_tags = self.filter_tags.clone();
        let secrets = self.secrets.clone();
        assert(filter_tags@ =~= self.filter_tags@);
        assert(secrets@ =~= self.secrets@);
        PrefetchConfig {
            cache_buffer_ratio_bits: self.cache_buffer_ratio_bits,
            max_jitter_seconds: self.max_jitter_seconds,
            filter_tags,
            secrets,
        }
    }
}

impl Default for PrefetchConfig {
    fn default() -> (r: Self)
        ensures
            r@ == default_prefetch_view(),
    {
        PrefetchConfig {
            cache_buffer_ratio_bits: DEFAULT_CACHE_BUFFER_RATIO_BITS,
            max_jitter_seconds: 0,
            filter_tags: Vec::new(),
            secrets: Vec::new(),
        }
    }
}

impl PrefetchConfig {
    /// Returns true if there are any secrets or tag filters configured.
    pub fn is_enabled(&self) -> (r: bool)
        ensures
            r == spec_prefetch_enabled(self@),
    {
        !self.filter_tags.is_empty() || !self.secrets.is_empty()
    }
}


/// Prefetching is on exactly when at least one tag filter or at least one
/// secret is configured; configuring both keeps it on, and adding a secret or
/// a tag filter never turns it off.
pub proof fn lemma_prefetch_enabled_iff_something_configured(p: PrefetchConfigView, s: SecretPrefetchConfig, t: TagFilter)
    ensures
        spec_prefetch_enabled(p) <==> (p.filter_tags.len() > 0 || p.secrets.len() > 0),
        (p.filter_tags.len() > 0 && p.secrets.len() > 0) ==> spec_prefetch_enabled(p),
        spec_prefetch_enabled(PrefetchConfigView { secrets: p.secrets.push(s), ..p }),
        spec_prefetch_enabled(PrefetchConfigView { filter_tags: p.filter_tags.push(t), ..p }),
        spec_prefetch_enabled(p) ==> spec_prefetch_enabled(
            PrefetchConfigView { secrets: p.secrets.push(s), filter_tags: p.filter_tags.push(t), ..p },
        ),
        !spec_prefetch_enabled(default_prefetch_view()),
{
}

} // verus!
