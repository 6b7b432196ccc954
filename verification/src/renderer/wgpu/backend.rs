//! Backend candidates, the order in which they are tried, and the device that
//! is requested from each.

use vstd::arithmetic::div_mod::{lemma_fundamental_div_mod, lemma_small_mod};
use vstd::prelude::*;
use vstd::string::StrSliceExecFns;

verus! {

/// The operating system that the renderer runs on, as far as it matters here.
#[derive(Debug, Clone, Copy, PartialEq, Eq, Structural)]
pub enum Platform {
    Android,
    Ohos,
    Apple,
    Windows,
    Other,
}

/// A graphics API.
#[derive(Debug, Clone, Copy, PartialEq, Eq, Structural)]
pub enum Backend {
    Noop,
    Vulkan,
    Metal,
    Dx12,
    Gl,
    BrowserWebGpu,
}

/// The graphics APIs that a candidate may use.
#[derive(Debug, Clone, Copy, PartialEq, Eq, Structural)]
pub enum Backends {
    Vulkan,
    Gl,
    All,
}

#[derive(Debug, Clone, Copy, PartialEq, Eq, Structural)]
pub enum DeviceType {
    Other,
    IntegratedGpu,
    DiscreteGpu,
    VirtualGpu,
    Cpu,
}

/// One way to get a device.
#[derive(Debug, Clone, Copy)]
pub struct WgpuBackendCandidate {
    pub label: &'static str,
    pub backends: Backends,
    pub force_fallback_adapter: bool,
    /// The device shares hardware buffers with Android's decoders.
    pub android_ahb_interop: bool,
    /// A software adapter will do.
    pub allow_cpu_adapter: bool,
    /// The device shares native buffers with the decoders of OpenHarmony.
    pub ohos_native_buffer_interop: bool,
}

pub open spec fn candidate(
    label: &'static str,
    backends: Backends,
    force_fallback_adapter: bool,
    android_ahb_interop: bool,
    allow_cpu_adapter: bool,
    ohos_native_buffer_interop: bool,
) -> WgpuBackendCandidate {
    WgpuBackendCandidate {
        label,
        backends,
        force_fallback_adapter,
        android_ahb_interop,
        allow_cpu_adapter,
        ohos_native_buffer_interop,
    }
}

/// The candidates of a platform, the most capable first.
pub open spec fn candidates(platform: Platform, ohos_vulkan_video: bool) -> Seq<
    WgpuBackendCandidate,
> {
    match platform {
        Platform::Android => seq![
            candidate("vulkan-ahb", Backends::Vulkan, false, true, false, false),
            candidate("vulkan", Backends::Vulkan, false, false, false, false),
            candidate("gles", Backends::Gl, false, false, false, false),
            candidate("vulkan-software", Backends::Vulkan, true, false, true, false),
        ],
        Platform::Ohos => (if ohos_vulkan_video {
            seq![
                candidate("ohos-vulkan-native-buffer", Backends::Vulkan, false, false, false, true),
            ]
        } else {
            seq![]
        }) + seq![
            candidate("ohos-vulkan", Backends::Vulkan, false, false, false, false),
            candidate("ohos-gles", Backends::Gl, false, false, false, false),
        ],
        _ => seq![
            candidate("platform-default", Backends::All, false, false, false, false),
        ],
    }
}

/// The candidates of a platform. A driver may render with Vulkan and yet lack
/// an extension that buffer sharing needs, so plain Vulkan stands before GLES.
pub fn wgpu_backend_candidates(platform: Platform, ohos_vulkan_video: bool) -> (list: Vec<
    WgpuBackendCandidate,
>)
    ensures
        list@ == candidates(platform, ohos_vulkan_video),
{
    let plain: WgpuBackendCandidate = WgpuBackendCandidate {
        label: "platform-default",
        backends: Backends::All,
        force_fallback_adapter: false,
        android_ahb_interop: false,
        allow_cpu_adapter: false,
        ohos_native_buffer_interop: false,
    };
    let mut list: Vec<WgpuBackendCandidate> = Vec::new();
    match platform {
        Platform::Android => {
            list.push(
                WgpuBackendCandidate {
                    label: "vulkan-ahb",
                    backends: Backends::Vulkan,
                    android_ahb_interop: true,
                    ..plain
                },
            );
            list.push(
                WgpuBackendCandidate { label: "vulkan", backends: Backends::Vulkan, ..plain },
            );
            list.push(WgpuBackendCandidate { label: "gles", backends: Backends::Gl, ..plain });
            list.push(
                WgpuBackendCandidate {
                    label: "vulkan-software",
                    backends: Backends::Vulkan,
                    force_fallback_adapter: true,
                    allow_cpu_adapter: true,
                    ..plain
                },
            );
        },
        Platform::Ohos => {
            if ohos_vulkan_video {
                list.push(
                    WgpuBackendCandidate {
                        label: "ohos-vulkan-native-buffer",
                        backends: Backends::Vulkan,
                        ohos_native_buffer_interop: true,
                        ..plain
                    },
                );
            }
            list.push(
                WgpuBackendCandidate { label: "ohos-vulkan", backends: Backends::Vulkan, ..plain },
            );
            list.push(WgpuBackendCandidate { label: "ohos-gles", backends: Backends::Gl, ..plain });
        },
        _ => {
            list.push(plain);
        },
    }
    assert(list@ =~= candidates(platform, ohos_vulkan_video));
    list
}

/// The label of a candidate that does not exist.
pub const UNKNOWN_CANDIDATE: &'static str = "unknown";

/// The label of the candidate at an index.
pub open spec fn label_at(list: Seq<WgpuBackendCandidate>, index: usize) -> &'static str {
    if index < list.len() {
        list[index as int].label
    } else {
        UNKNOWN_CANDIDATE
    }
}

/// The labels of the candidates at the given indices.
pub fn candidate_labels(list: &Vec<WgpuBackendCandidate>, indices: &[usize]) -> (labels: Vec<
    &'static str,
>)
    ensures
        labels@ == Seq::new(indices@.len(), |i: int| label_at(list@, indices@[i])),
{
    let mut labels: Vec<&'static str> = Vec::new();
    let mut next: usize = 0;
    while next < indices.len()
        invariant
            next <= indices@.len(),
            labels@ == Seq::new(next as nat, |i: int| label_at(list@, indices@[i])),
        decreases indices@.len() - next,
    {
        let index: usize = indices[next];
        if index < list.len() {
            labels.push(list[index].label);
        } else {
            labels.push(UNKNOWN_CANDIDATE);
        }
        next = next + 1;
    }
    labels
}

/// A character with ASCII letters in lower case.
pub open spec fn ascii_lower(c: char) -> char {
    if 'A' <= c <= 'Z' {
        (c as u32 + 32) as char
    } else {
        c
    }
}

/// Two texts are equal but for the case of ASCII letters.
pub open spec fn equal_ignoring_case(left: Seq<char>, right: Seq<char>) -> bool {
    &&& left.len() == right.len()
    &&& forall|i: int|
        0 <= i < left.len() ==> ascii_lower(#[trigger] left[i]) == ascii_lower(right[i])
}

fn lower(c: char) -> (lowered: u32)
    ensures
        lowered == ascii_lower(c) as u32,
{
    if 'A' <= c && c <= 'Z' {
        c as u32 + 32
    } else {
        c as u32
    }
}

fn eq_ignore_ascii_case(left: &str, right: &str) -> (equal: bool)
    ensures
        equal == equal_ignoring_case(left@, right@),
{
    let len: usize = left.unicode_len();
    if len != right.unicode_len() {
        return false;
    }
    let mut i: usize = 0;
    while i < len
        invariant
            len == left@.len(),
            len == right@.len(),
            i <= len,
            forall|j: int|
                0 <= j < i ==> ascii_lower(#[trigger] left@[j]) == ascii_lower(right@[j]),
        decreases len - i,
    {
        if lower(left.get_char(i)) != lower(right.get_char(i)) {
            assert(ascii_lower(left@[i as int]) != ascii_lower(right@[i as int]));
            return false;
        }
        assert(ascii_lower(left@[i as int]) == ascii_lower(right@[i as int]));
        i = i + 1;
    }
    true
}

/// Whether decoded video may share buffers with Vulkan on OpenHarmony: it does
/// unless the build was configured with "0", "false" or "off".
pub fn ohos_vulkan_video_enabled(configured: Option<&str>) -> (enabled: bool)
    ensures
        enabled <==> match configured {
            Some(value) => !(value@ == "0"@ || equal_ignoring_case(value@, "false"@)
                || equal_ignoring_case(value@, "off"@)),
            None => true,
        },
{
    match configured {
        Some(value) => {
            proof {
                reveal_strlit("0");
                assert(ascii_lower('0') == '0');
                if equal_ignoring_case(value@, "0"@) {
                    assert(ascii_lower(value@[0]) == '0');
                    assert(value@ =~= "0"@);
                }
            }
            !(eq_ignore_ascii_case(value, "0") || eq_ignore_ascii_case(value, "false")
                || eq_ignore_ascii_case(value, "off"))
        },
        None => true,
    }
}

/// Whether decoded video may be read through images on OpenHarmony: it is only
/// where the build was configured with "1" or "true".
pub fn ohos_surface_video_enabled(configured: Option<&str>) -> (enabled: bool)
    ensures
        enabled <==> (configured matches Some(value) && (value@ == "1"@ || equal_ignoring_case(
            value@,
            "true"@,
        ))),
{
    match configured {
        Some(value) => {
            proof {
                reveal_strlit("1");
                assert(ascii_lower('1') == '1');
                if equal_ignoring_case(value@, "1"@) {
                    assert(ascii_lower(value@[0]) == '1');
                    assert(value@ =~= "1"@);
                }
            }
            eq_ignore_ascii_case(value, "1") || eq_ignore_ascii_case(value, "true")
        },
        None => false,
    }
}

/// The instance flags of a platform. The object labels that a validation layer
/// would get are dropped on Android, where a driver may dereference a null
/// object while it assigns them.
pub fn wgpu_instance_flags(platform: Platform, configured: u32, discard_labels: u32) -> (flags: u32)
    ensures
        flags == if platform == Platform::Android {
            configured | discard_labels
        } else {
            configured
        },
{
    if platform == Platform::Android {
        configured | discard_labels
    } else {
        configured
    }
}

/// Every candidate once, beginning with the one at `start`.
pub open spec fn rotation(count: nat, start: nat) -> Seq<usize> {
    Seq::new(count, |offset: int| ((start % count + offset) % count as int) as usize)
}

/// The candidates of a rotation that are not excluded.
pub open spec fn untried(rotated: Seq<usize>, excluded: Seq<usize>) -> Seq<usize> {
    rotated.filter(|candidate: usize| !excluded.contains(candidate))
}

fn contains(list: &[usize], wanted: usize) -> (found: bool)
    ensures
        found == list@.contains(wanted),
{
    let mut i: usize = 0;
    while i < list.len()
        invariant
            i <= list@.len(),
            forall|j: int| 0 <= j < i ==> list@[j] != wanted,
        decreases list@.len() - i,
    {
        if list[i] == wanted {
            return true;
        }
        i = i + 1;
    }
    false
}

/// The order in which candidates are tried: in turn from `start_index`, without
/// those that are excluded.
pub fn backend_candidate_order(
    candidate_count: usize,
    start_index: usize,
    excluded: &[usize],
) -> (order: Vec<usize>)
    ensures
        candidate_count == 0 ==> order@.len() == 0,
        candidate_count > 0 ==> order@ == untried(
            rotation(candidate_count as nat, start_index as nat),
            excluded@,
        ),
{
    let mut order: Vec<usize> = Vec::new();
    if candidate_count == 0 {
        return order;
    }
    let start: usize = start_index % candidate_count;
    let ghost rotated = rotation(candidate_count as nat, start_index as nat);
    let mut offset: usize = 0;
    proof {
        reveal(Seq::filter);
        assert(rotated.take(0) =~= Seq::empty());
    }
    while offset < candidate_count
        invariant
            offset <= candidate_count,
            candidate_count > 0,
            start == start_index % candidate_count,
            start < candidate_count,
            rotated == rotation(candidate_count as nat, start_index as nat),
            order@ == untried(rotated.take(offset as int), excluded@),
        decreases candidate_count - offset,
    {
        let candidate: usize = if start >= candidate_count - offset {
            start - (candidate_count - offset)
        } else {
            start + offset
        };
        proof {
            lemma_wrapped(start as int, offset as int, candidate_count as int);
            assert(rotated[offset as int] == candidate);
            reveal(Seq::filter);
            let longer = rotated.take(offset + 1);
            assert(longer.drop_last() =~= rotated.take(offset as int));
            assert(longer.last() == candidate);
        }
        if !contains(excluded, candidate) {
            order.push(candidate);
        }
        offset = offset + 1;
    }
    assert(rotated.take(offset as int) =~= rotated);
    order
}

/// An offset from an index, in a ring of `count`.
proof fn lemma_wrapped(start: int, offset: int, count: int)
    requires
        0 <= start < count,
        0 <= offset < count,
    ensures
        (start + offset) % count == if start + offset >= count {
            start + offset - count
        } else {
            start + offset
        },
{
    if start + offset >= count {
        vstd::arithmetic::div_mod::lemma_mod_add_multiples_vanish(start + offset - count, count);
        lemma_small_mod((start + offset - count) as nat, count as nat);
    } else {
        lemma_small_mod((start + offset) as nat, count as nat);
    }
}

/// What a rotation holds: the candidates below the count, each once.
proof fn lemma_rotation(count: nat, start: nat)
    requires
        0 < count <= usize::MAX,
    ensures
        forall|i: int, j: int|
            0 <= i < j < count ==> #[trigger] rotation(count, start)[i] != #[trigger] rotation(
                count,
                start,
            )[j],
        forall|i: int| 0 <= i < count ==> #[trigger] rotation(count, start)[i] < count,
        forall|c: usize| c < count ==> #[trigger] rotation(count, start).contains(c),
{
    let rotated = rotation(count, start);
    let first = (start % count) as int;
    assert forall|i: int| 0 <= i < count implies #[trigger] rotated[i] == if first + i >= count {
        first + i - count
    } else {
        first + i
    } by {
        lemma_wrapped(first, i, count as int);
    }
    assert forall|c: usize| c < count implies #[trigger] rotated.contains(c) by {
        let at = if c >= first {
            c - first
        } else {
            c - first + count
        };
        assert(rotated[at] == c);
    }
}

/// An element of a filtered sequence is one of the sequence that passes.
proof fn lemma_untried_elements(rotated: Seq<usize>, excluded: Seq<usize>)
    ensures
        forall|c: usize| #[trigger]
            untried(rotated, excluded).contains(c) <==> rotated.contains(c) && !excluded.contains(
                c,
            ),
        untried(rotated, excluded).len() <= rotated.len(),
    decreases rotated.len(),
{
    reveal(Seq::filter);
    let kept = untried(rotated, excluded);
    if rotated.len() > 0 {
        let rest = rotated.drop_last();
        lemma_untried_elements(rest, excluded);
        let kept_rest = untried(rest, excluded);
        assert forall|c: usize| #[trigger] kept.contains(c) <==> rotated.contains(c)
            && !excluded.contains(c) by {
            assert(rotated.contains(c) <==> rest.contains(c) || rotated.last() == c) by {
                if rotated.contains(c) && rotated.last() != c {
                    let i = rotated.index_of(c);
                    assert(rest[i] == c);
                }
                if rest.contains(c) {
                    assert(rotated[rest.index_of(c)] == c);
                }
                if rotated.last() == c {
                    assert(rotated[rotated.len() - 1] == c);
                }
            }
            if excluded.contains(rotated.last()) {
                assert(kept == kept_rest);
            } else {
                assert(kept == kept_rest.push(rotated.last()));
                assert(kept.contains(c) <==> kept_rest.contains(c) || rotated.last() == c) by {
                    if kept.contains(c) && rotated.last() != c {
                        let i = kept.index_of(c);
                        assert(kept_rest[i] == c);
                    }
                    if kept_rest.contains(c) {
                        assert(kept[kept_rest.index_of(c)] == c);
                    }
                    if rotated.last() == c {
                        assert(kept[kept.len() - 1] == c);
                    }
                }
            }
        }
    }
}

/// A filtered sequence without duplicates has none either.
proof fn lemma_untried_distinct(rotated: Seq<usize>, excluded: Seq<usize>)
    requires
        rotated.no_duplicates(),
    ensures
        untried(rotated, excluded).no_duplicates(),
    decreases rotated.len(),
{
    reveal(Seq::filter);
    if rotated.len() > 0 {
        let rest = rotated.drop_last();
        lemma_untried_distinct(rest, excluded);
        lemma_untried_elements(rest, excluded);
        if !excluded.contains(rotated.last()) {
            let kept_rest = untried(rest, excluded);
            assert(!rest.contains(rotated.last()));
            assert(!kept_rest.contains(rotated.last()));
            assert(untried(rotated, excluded) == kept_rest.push(rotated.last()));
        }
    }
}

/// Every candidate that is not excluded is tried, once, and no other is.
pub proof fn lemma_order_tries_each_untried_candidate_once(
    candidate_count: usize,
    start_index: usize,
    excluded: Seq<usize>,
)
    requires
        candidate_count > 0,
    ensures
        ({
            let order = untried(rotation(candidate_count as nat, start_index as nat), excluded);
            &&& order.no_duplicates()
            &&& forall|c: usize| #[trigger]
                order.contains(c) <==> c < candidate_count && !excluded.contains(c)
        }),
{
    let rotated = rotation(candidate_count as nat, start_index as nat);
    lemma_rotation(candidate_count as nat, start_index as nat);
    lemma_untried_elements(rotated, excluded);
    lemma_untried_distinct(rotated, excluded);
    let order = untried(rotated, excluded);
    assert forall|c: usize| #[trigger] order.contains(c) <==> c < candidate_count
        && !excluded.contains(c) by {
        if rotated.contains(c) {
            assert(rotated[rotated.index_of(c)] == c);
        }
    }
}

/// Without exclusions the candidates come in turn from the one at the start.
pub proof fn lemma_order_without_exclusions_is_the_rotation(
    candidate_count: usize,
    start_index: usize,
)
    requires
        candidate_count > 0,
    ensures
        untried(rotation(candidate_count as nat, start_index as nat), Seq::empty()) == rotation(
            candidate_count as nat,
            start_index as nat,
        ),
        rotation(candidate_count as nat, start_index as nat)[0] == start_index % candidate_count,
{
    lemma_all_untried(rotation(candidate_count as nat, start_index as nat));
    lemma_wrapped((start_index % candidate_count) as int, 0, candidate_count as int);
}

proof fn lemma_all_untried(rotated: Seq<usize>)
    ensures
        untried(rotated, Seq::empty()) == rotated,
    decreases rotated.len(),
{
    reveal(Seq::filter);
    if rotated.len() > 0 {
        lemma_all_untried(rotated.drop_last());
        assert(!Seq::<usize>::empty().contains(rotated.last()));
        assert(rotated.drop_last().push(rotated.last()) =~= rotated);
    } else {
        assert(untried(rotated, Seq::empty()) =~= rotated);
    }
}

/// The order in which candidates are tried once the device of `current` has
/// failed: the next one first, and none of those already excluded.
pub fn recovery_candidate_order(
    candidate_count: usize,
    current: usize,
    excluded: &[usize],
) -> (order: Vec<usize>)
    ensures
        candidate_count == 0 ==> order@.len() == 0,
        candidate_count > 0 ==> order@ == untried(
            rotation(
                candidate_count as nat,
                if current < usize::MAX {
                    (current + 1) as nat
                } else {
                    current as nat
                },
            ),
            excluded@,
        ),
{
    backend_candidate_order(candidate_count, current.saturating_add(1), excluded)
}

/// The candidates that were tried by the time that one was selected.
pub open spec fn attempted(order: Seq<usize>, selected: Option<usize>) -> Seq<usize> {
    match selected {
        Some(selected) if order.contains(selected) => order.take(
            first_position(order, selected) + 1,
        ),
        _ => order,
    }
}

/// The first place at which a candidate stands.
pub open spec fn first_position(order: Seq<usize>, wanted: usize) -> int
    decreases order.len(),
{
    if order.len() == 0 || order[0] == wanted {
        0
    } else {
        1 + first_position(order.drop_first(), wanted)
    }
}

/// What makes a place the first one.
proof fn lemma_first_position(order: Seq<usize>, wanted: usize, position: int)
    requires
        0 <= position < order.len(),
        order[position] == wanted,
        forall|i: int| 0 <= i < position ==> order[i] != wanted,
    ensures
        first_position(order, wanted) == position,
    decreases order.len(),
{
    if position > 0 {
        let rest = order.drop_first();
        assert forall|i: int| 0 <= i < position - 1 implies rest[i] != wanted by {
            assert(rest[i] == order[i + 1]);
        }
        lemma_first_position(rest, wanted, position - 1);
    }
}

/// The candidates of an order that were tried: up to the selected one, which
/// counts, or all of them where none was selected.
pub fn attempted_candidate_prefix(
    candidate_order: &[usize],
    selected_candidate: Option<usize>,
) -> (tried: Vec<usize>)
    ensures
        tried@ == attempted(candidate_order@, selected_candidate),
{
    let mut tried: Vec<usize> = Vec::new();
    let mut i: usize = 0;
    while i < candidate_order.len()
        invariant
            i <= candidate_order@.len(),
            tried@ == candidate_order@.take(i as int),
            selected_candidate matches Some(selected) ==> forall|j: int|
                0 <= j < i ==> candidate_order@[j] != selected,
        decreases candidate_order@.len() - i,
    {
        let candidate: usize = candidate_order[i];
        tried.push(candidate);
        assert(tried@ =~= candidate_order@.take(i + 1));
        if let Some(selected) = selected_candidate {
            if candidate == selected {
                proof {
                    lemma_first_position(candidate_order@, selected, i as int);
                }
                return tried;
            }
        }
        i = i + 1;
    }
    assert(candidate_order@.take(i as int) =~= candidate_order@);
    tried
}

/// The candidates that were tried begin the order, and end with the selected
/// one where there is one.
pub proof fn lemma_attempts_end_with_the_selected_candidate(order: Seq<usize>, selected: usize)
    requires
        order.contains(selected),
    ensures
        attempted(order, Some(selected)).len() > 0,
        attempted(order, Some(selected)).is_prefix_of(order),
        attempted(order, Some(selected)).last() == selected,
        forall|i: int|
            0 <= i < attempted(order, Some(selected)).len() - 1 ==> #[trigger] attempted(
                order,
                Some(selected),
            )[i] != selected,
{
    lemma_first_position_is_first(order, selected);
    assert(order.take(first_position(order, selected) + 1).is_prefix_of(order));
}

proof fn lemma_first_position_is_first(order: Seq<usize>, wanted: usize)
    requires
        order.contains(wanted),
    ensures
        0 <= first_position(order, wanted) < order.len(),
        order[first_position(order, wanted)] == wanted,
        forall|i: int| 0 <= i < first_position(order, wanted) ==> order[i] != wanted,
    decreases order.len(),
{
    if order[0] != wanted {
        let rest = order.drop_first();
        let at = order.index_of(wanted);
        assert(rest[at - 1] == wanted);
        lemma_first_position_is_first(rest, wanted);
        assert forall|i: int| 0 <= i < first_position(order, wanted) implies order[i] != wanted by {
            if i > 0 {
                assert(rest[i - 1] == order[i]);
            }
        }
    }
}

/// The least whole number of parts of size `part` that covers `total`.
pub open spec fn parts_to_cover(total: int, part: int) -> int {
    (total + part - 1) / part
}

/// A picture's size on a display: its own where it fits, else scaled down until
/// it does, keeping its shape up to rounding up.
pub open spec fn fitted(
    source_width: u32,
    source_height: u32,
    max_width: u32,
    max_height: u32,
) -> (int, int) {
    let limit_width: int = if max_width == 0 {
        1
    } else {
        max_width as int
    };
    let limit_height: int = if max_height == 0 {
        1
    } else {
        max_height as int
    };
    if source_width == 0 || source_height == 0 || (source_width <= limit_width && source_height
        <= limit_height) {
        (source_width as int, source_height as int)
    } else if source_width * limit_height > source_height * limit_width {
        (limit_width, parts_to_cover(source_height * limit_width, source_width as int))
    } else {
        (parts_to_cover(source_width * limit_height, source_height as int), limit_height)
    }
}

proof fn lemma_parts_to_cover(total: int, part: int, limit: int)
    requires
        0 < total <= part * limit,
        part > 0,
        limit >= 0,
    ensures
        1 <= parts_to_cover(total, part) <= limit,
        (parts_to_cover(total, part) - 1) * part < total,
        total <= parts_to_cover(total, part) * part,
{
    let parts = parts_to_cover(total, part);
    lemma_fundamental_div_mod(total + part - 1, part);
    assert(1 <= parts <= limit && (parts - 1) * part < total && total <= parts * part)
        by (nonlinear_arith)
        requires
            total + part - 1 == part * parts + (total + part - 1) % part,
            0 <= (total + part - 1) % part < part,
            0 < total <= part * limit,
            part > 0,
    ;
}

/// The size that a picture is converted to so that it fits a display. A picture
/// that fits already keeps its size.
pub fn fit_extent_without_upscale(
    source_width: u32,
    source_height: u32,
    max_width: u32,
    max_height: u32,
) -> (extent: (u32, u32))
    ensures
        extent.0 == fitted(source_width, source_height, max_width, max_height).0,
        extent.1 == fitted(source_width, source_height, max_width, max_height).1,
{
    if source_width == 0 || source_height == 0 {
        return (source_width, source_height);
    }
    let limit_width: u32 = if max_width == 0 {
        1
    } else {
        max_width
    };
    let limit_height: u32 = if max_height == 0 {
        1
    } else {
        max_height
    };
    if source_width <= limit_width && source_height <= limit_height {
        return (source_width, source_height);
    }
    proof {
        assert(0 < source_width * limit_height <= 0xffff_fffe_0000_0001) by (nonlinear_arith)
            requires
                0 < source_width <= u32::MAX,
                0 < limit_height <= u32::MAX,
        ;
        assert(0 < source_height * limit_width <= 0xffff_fffe_0000_0001) by (nonlinear_arith)
            requires
                0 < source_height <= u32::MAX,
                0 < limit_width <= u32::MAX,
        ;
    }
    let across: u64 = source_width as u64 * limit_height as u64;
    let down: u64 = source_height as u64 * limit_width as u64;
    if across > down {
        proof {
            lemma_parts_to_cover(down as int, source_width as int, limit_height as int);
        }
        let height: u64 = (down + (source_width as u64 - 1)) / source_width as u64;
        (limit_width, height as u32)
    } else {
        proof {
            assert(source_height * limit_width == down);
            lemma_parts_to_cover(across as int, source_height as int, limit_width as int);
        }
        let width: u64 = (across + (source_height as u64 - 1)) / source_height as u64;
        (width as u32, limit_height)
    }
}

/// A picture is never enlarged, and where it is not empty it fits the display.
pub proof fn lemma_fitted_never_upscales(
    source_width: u32,
    source_height: u32,
    max_width: u32,
    max_height: u32,
)
    requires
        max_width > 0,
        max_height > 0,
    ensures
        ({
            let (width, height) = fitted(source_width, source_height, max_width, max_height);
            &&& 0 <= width <= source_width
            &&& 0 <= height <= source_height
            &&& source_width > 0 && source_height > 0 ==> 0 < width <= max_width && 0 < height
                <= max_height
        }),
{
    if source_width > 0 && source_height > 0 && (source_width > max_width || source_height
        > max_height) {
        let across = source_width * max_height;
        let down = source_height * max_width;
        assert(across > 0 && down > 0) by (nonlinear_arith)
            requires
                across == source_width * max_height,
                down == source_height * max_width,
                source_width > 0,
                source_height > 0,
                max_width > 0,
                max_height > 0,
        ;
        if across > down {
            assert(source_width > max_width) by (nonlinear_arith)
                requires
                    source_width * max_height > source_height * max_width,
                    source_width > max_width || source_height > max_height,
                    source_width > 0,
                    max_height > 0,
                    max_width > 0,
            ;
            assert(down <= source_width * source_height) by (nonlinear_arith)
                requires
                    down == source_height * max_width,
                    source_width > max_width,
                    source_height > 0,
            ;
            lemma_parts_to_cover(down, source_width as int, max_height as int);
            lemma_parts_to_cover(down, source_width as int, source_height as int);
        } else {
            assert(source_height > max_height) by (nonlinear_arith)
                requires
                    source_width * max_height <= source_height * max_width,
                    source_width > max_width || source_height > max_height,
                    source_width > 0,
                    max_height > 0,
                    max_width > 0,
            ;
            assert(across <= source_height * source_width) by (nonlinear_arith)
                requires
                    across == source_width * max_height,
                    source_height > max_height,
                    source_width > 0,
            ;
            lemma_parts_to_cover(across, source_height as int, max_width as int);
            lemma_parts_to_cover(across, source_height as int, source_width as int);
        }
    }
}

/// A picture that is scaled down fills one side of the display, and the other
/// side is the least that keeps the picture's shape from being cut.
pub proof fn lemma_fitted_keeps_the_shape(
    source_width: u32,
    source_height: u32,
    max_width: u32,
    max_height: u32,
)
    requires
        source_width > 0,
        source_height > 0,
        max_width > 0,
        max_height > 0,
        source_width > max_width || source_height > max_height,
    ensures
        ({
            let (width, height) = fitted(source_width, source_height, max_width, max_height);
            ||| width == max_width && (height - 1) * source_width < source_height * max_width
                <= height * source_width
            ||| height == max_height && (width - 1) * source_height < source_width * max_height
                <= width * source_height
        }),
{
    let across = source_width * max_height;
    let down = source_height * max_width;
    assert(across > 0 && down > 0) by (nonlinear_arith)
        requires
            across == source_width * max_height,
            down == source_height * max_width,
            source_width > 0,
            source_height > 0,
            max_width > 0,
            max_height > 0,
    ;
    if across > down {
        lemma_parts_to_cover(down, source_width as int, max_height as int);
    } else {
        lemma_parts_to_cover(across, source_height as int, max_width as int);
    }
}

} // verus!
