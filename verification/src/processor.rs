use vstd::prelude::*;
use vstd::string::*;
use crate::size::Size;
use crate::size::SizeView;
use crate::size::all_valid;
use crate::size::seq_sizes;
use crate::size::valid_size;
use crate::text::spec_join;
use crate::text::spec_output_name;
use crate::text::stem_or_default;
use crate::text::join_path;
use crate::text::output_name;
use crate::text::file_stem;
use crate::codec::decodes;
use crate::codec::decode_raster;
use crate::codec::jpeg_encoding;
use crate::codec::png_encoding;
use crate::codec::resize_raster;
use crate::codec::encode_png;
use crate::codec::encode_jpeg;
use rayon::iter::IntoParallelRefIterator;
use rayon::iter::ParallelIterator;

verus! {

/// The fixed JPEG encoding quality, out of 100.
pub const JPEG_QUALITY: u8 = 90;

/// One produced size variant: where its folder and file go, the dimensions it
/// was resized to, and the encoded bytes.
#[derive(Debug)]
pub struct SizedOutput {
    pub dir_path: String,
    pub file_path: String,
    pub width: u32,
    pub height: u32,
    pub data: Vec<u8>,
}

/// Why one source image failed, by pipeline stage.
#[derive(Debug)]
pub enum ResizeError {
    /// The source file could not be read or decoded.
    Decode(String),
    /// A per-size output directory could not be created.
    Directory(String),
    /// Encoding or writing one output failed.
    Encode(String),
}

/// The outcome of one source image: every requested variant, or the first
/// failure encountered.
pub enum Outcome {
    Success(Vec<SizedOutput>),
    Failure(ResizeError),
}

/// One source image as handed to the orchestrator: its path and the result
/// of reading its bytes.
pub struct SourceImage {
    pub path: String,
    pub data: Result<Vec<u8>, String>,
}

/// One entry of a batch outcome: the source path paired with what became of
/// it.
pub struct BatchItem {
    pub source: String,
    pub outcome: Outcome,
}

// ---------------------------------------------------------------------------
// Derived locations
// ---------------------------------------------------------------------------

/// The directory that holds one size's outputs: `{out_dir}/{size name}`.
pub open spec fn spec_dir_path(out_dir: Seq<char>, size_name: Seq<char>) -> Seq<char> {
    spec_join(out_dir, size_name)
}

/// The full path of one output file:
/// `{out_dir}/{size name}/{stem}-{size name}.{png|jpg}`.
pub open spec fn spec_file_path(
    out_dir: Seq<char>,
    source_path: Seq<char>,
    size_name: Seq<char>,
    use_png: bool,
) -> Seq<char> {
    spec_join(
        spec_dir_path(out_dir, size_name),
        spec_output_name(stem_or_default(source_path), size_name, use_png),
    )
}

/// What encoding one requested variant of the decoded source yields: the
/// output file's bytes, or nothing where the encoder rejects that raster.
pub open spec fn spec_encoding(bytes: Seq<u8>, s: SizeView, use_png: bool) -> Option<Seq<u8>> {
    if use_png {
        png_encoding(bytes, s.width, s.height)
    } else {
        jpeg_encoding(bytes, s.width, s.height, JPEG_QUALITY)
    }
}

/// What a successful output list must be: one output per requested size, in
/// order, at the derived locations, with exactly the requested dimensions,
/// holding exactly the bytes that encoding that variant of the source yields.
pub open spec fn outputs_wf(
    outs: Seq<SizedOutput>,
    source_path: Seq<char>,
    bytes: Seq<u8>,
    out_dir: Seq<char>,
    sizes: Seq<SizeView>,
    use_png: bool,
) -> bool {
    &&& outs.len() == sizes.len()
    &&& forall|i: int|
        0 <= i < outs.len() ==> {
            &&& (#[trigger] outs[i]).dir_path@ == spec_dir_path(out_dir, sizes[i].name)
            &&& outs[i].file_path@ == spec_file_path(out_dir, source_path, sizes[i].name, use_png)
            &&& outs[i].width == sizes[i].width
            &&& outs[i].height == sizes[i].height
            &&& spec_encoding(bytes, sizes[i], use_png) == Some(outs[i].data@)
        }
}

/// What `resize_all` may return: on success, a well-formed output list for
/// decodable bytes; on failure, a decode error exactly when the bytes do not
/// decode, an encode error only when the encoder rejects some requested
/// variant, and never a directory error. Together these owe success whenever
/// the bytes decode and every variant encodes.
pub open spec fn resize_post(
    r: Result<Vec<SizedOutput>, ResizeError>,
    source_path: Seq<char>,
    bytes: Seq<u8>,
    out_dir: Seq<char>,
    sizes: Seq<SizeView>,
    use_png: bool,
) -> bool {
    match r {
        Ok(outs) => decodes(bytes) && outputs_wf(
            outs@,
            source_path,
            bytes,
            out_dir,
            sizes,
            use_png,
        ),
        Err(e) => {
            &&& !(e is Directory)
            &&& (e is Decode <==> !decodes(bytes))
            &&& e is Encode ==> exists|i: int|
                0 <= i < sizes.len() && spec_encoding(bytes, #[trigger] sizes[i], use_png) is None
        },
    }
}

/// Success is owed: a single-image result satisfying `resize_post` is `Ok`
/// exactly when the bytes decode and the encoder accepts every requested
/// variant.
pub proof fn lemma_resize_success_iff(
    r: Result<Vec<SizedOutput>, ResizeError>,
    source_path: Seq<char>,
    bytes: Seq<u8>,
    out_dir: Seq<char>,
    sizes: Seq<SizeView>,
    use_png: bool,
)
    requires
        resize_post(r, source_path, bytes, out_dir, sizes, use_png),
    ensures
        r is Ok <==> (decodes(bytes) && forall|i: int|
            0 <= i < sizes.len() ==> spec_encoding(bytes, #[trigger] sizes[i], use_png) is Some),
{
    match r {
        Ok(outs) => {
            assert forall|i: int|
                0 <= i < sizes.len() implies spec_encoding(
                bytes,
                #[trigger] sizes[i],
                use_png,
            ) is Some by {
                assert(spec_encoding(bytes, sizes[i], use_png) == Some(outs@[i].data@));
            }
        },
        Err(e) => {},
    }
}

/// The condition a size list must meet before dispatch: nonempty, and every
/// entry valid.
pub open spec fn sizes_ok(sizes: Seq<Size>) -> bool {
    sizes.len() > 0 && all_valid(seq_sizes(sizes))
}

// ---------------------------------------------------------------------------
// Single-image operation
// ---------------------------------------------------------------------------

/// Produce every requested size variant of one source image, in memory.
///
/// The bytes are decoded once; each size is then resampled to its exact
/// dimensions and encoded, as PNG when `use_png` holds and as JPEG at the
/// fixed quality otherwise. The work stops at the first failure; variants
/// already produced are discarded with the error.
pub fn resize_all(
    source_path: &str,
    bytes: &Vec<u8>,
    out_dir: &str,
    sizes: &Vec<Size>,
    use_png: bool,
) -> (r: Result<Vec<SizedOutput>, ResizeError>)
    requires
        sizes_ok(sizes@),
    ensures
        resize_post(r, source_path@, bytes@, out_dir@, seq_sizes(sizes@), use_png),
{
    let decoded = match decode_raster(bytes) {
        Ok(decoded) => decoded,
        Err(msg) => {
            return Err(ResizeError::Decode(msg));
        },
    };
    let stem = file_stem(source_path);
    let mut outs: Vec<SizedOutput> = Vec::new();
    let mut i: usize = 0;
    while i < sizes.len()
        invariant
            decodes(bytes@),
            decoded@ == bytes@,
            sizes_ok(sizes@),
            stem@ == stem_or_default(source_path@),
            i <= sizes@.len(),
            outs@.len() == i,
            forall|k: int|
                0 <= k < i ==> {
                    &&& (#[trigger] outs@[k]).dir_path@ == spec_dir_path(out_dir@, sizes@[k]@.name)
                    &&& outs@[k].file_path@ == spec_file_path(
                        out_dir@,
                        source_path@,
                        sizes@[k]@.name,
                        use_png,
                    )
                    &&& outs@[k].width == sizes@[k]@.width
                    &&& outs@[k].height == sizes@[k]@.height
                    &&& spec_encoding(bytes@, sizes@[k]@, use_png) == Some(outs@[k].data@)
                },
        decreases sizes@.len() - i,
    {
        let s = &sizes[i];
        assert(valid_size(seq_sizes(sizes@)[i as int]));
        assert(seq_sizes(sizes@)[i as int] == sizes@[i as int]@);
        let raster = resize_raster(&decoded, s.width, s.height);
        let encoded = if use_png {
            encode_png(&raster)
        } else {
            encode_jpeg(&raster, JPEG_QUALITY)
        };
        let data = match encoded {
            Ok(d) => d,
            Err(msg) => {
                assert(spec_encoding(bytes@, seq_sizes(sizes@)[i as int], use_png) is None);
                return Err(ResizeError::Encode(msg));
            },
        };
        let dir = join_path(out_dir, s.name.as_str());
        let fname = output_name(stem.as_str(), s.name.as_str(), use_png);
        let fpath = join_path(dir.as_str(), fname.as_str());
        outs.push(
            SizedOutput {
                dir_path: dir,
                file_path: fpath,
                width: s.width,
                height: s.height,
                data,
            },
        );
        i = i + 1;
    }
    Ok(outs)
}

// ---------------------------------------------------------------------------
// Batch orchestration
// ---------------------------------------------------------------------------

/// What one batch entry must be for one source image: the entry names the
/// source, a read failure becomes a decode failure carrying the read error,
/// and otherwise the outcome is exactly what `resize_all` may return.
pub open spec fn item_wf(
    item: BatchItem,
    src: SourceImage,
    out_dir: Seq<char>,
    sizes: Seq<SizeView>,
    use_png: bool,
) -> bool {
    &&& item.source@ == src.path@
    &&& match src.data {
        Ok(bytes) => match item.outcome {
            Outcome::Success(outs) => decodes(bytes@) && outputs_wf(
                outs@,
                src.path@,
                bytes@,
                out_dir,
                sizes,
                use_png,
            ),
            Outcome::Failure(e) => {
                &&& !(e is Directory)
                &&& (e is Decode <==> !decodes(bytes@))
                &&& e is Encode ==> exists|k: int|
                    0 <= k < sizes.len() && spec_encoding(
                        bytes@,
                        #[trigger] sizes[k],
                        use_png,
                    ) is None
            },
        },
        Err(msg) => match item.outcome {
            Outcome::Failure(ResizeError::Decode(m)) => m@ == msg@,
            _ => false,
        },
    }
}

/// What a whole batch outcome must be: one entry per input, in input order,
/// each well-formed for its own input alone. The orchestrator itself never
/// fails: even a batch of unreadable files yields a complete outcome list.
pub open spec fn batch_wf(
    items: Seq<BatchItem>,
    inputs: Seq<SourceImage>,
    out_dir: Seq<char>,
    sizes: Seq<SizeView>,
    use_png: bool,
) -> bool {
    &&& items.len() == inputs.len()
    &&& forall|i: int|
        0 <= i < items.len() ==> item_wf(#[trigger] items[i], inputs[i], out_dir, sizes, use_png)
}

/// Process one source image of a batch.
pub fn resize_one(src: &SourceImage, out_dir: &str, sizes: &Vec<Size>, use_png: bool) -> (item:
    BatchItem)
    requires
        sizes_ok(sizes@),
    ensures
        item_wf(item, *src, out_dir@, seq_sizes(sizes@), use_png),
{
    let outcome = match &src.data {
        Ok(bytes) => match resize_all(src.path.as_str(), bytes, out_dir, sizes, use_png) {
            Ok(outs) => Outcome::Success(outs),
            Err(e) => Outcome::Failure(e),
        },
        Err(msg) => Outcome::Failure(ResizeError::Decode(msg.clone())),
    };
    BatchItem { source: src.path.clone(), outcome }
}

/// Process a whole batch strictly in input order, one image at a time.
///
/// No entry can abort the batch: a failing image is recorded and the next one
/// is attempted.
pub fn batch_resize(
    inputs: &Vec<SourceImage>,
    out_dir: &str,
    sizes: &Vec<Size>,
    use_png: bool,
) -> (items: Vec<BatchItem>)
    requires
        sizes_ok(sizes@),
    ensures
        batch_wf(items@, inputs@, out_dir@, seq_sizes(sizes@), use_png),
{
    let mut items: Vec<BatchItem> = Vec::new();
    let mut i: usize = 0;
    while i < inputs.len()
        invariant
            sizes_ok(sizes@),
            i <= inputs@.len(),
            items@.len() == i,
            forall|k: int|
                0 <= k < i ==> item_wf(
                    #[trigger] items@[k],
                    inputs@[k],
                    out_dir@,
                    seq_sizes(sizes@),
                    use_png,
                ),
        decreases inputs@.len() - i,
    {
        let item = resize_one(&inputs[i], out_dir, sizes, use_png);
        items.push(item);
        i = i + 1;
    }
    items
}

/// Process a whole batch across a worker pool sized to the machine.
///
/// Relies on rayon's parallel iterators: `par_iter().map(..).collect()`
/// applies the closure to every element and collects the mapped results in
/// the order of the original slice, regardless of completion order. The
/// closure only calls `resize_one`, whose verified contract gives each
/// entry's shape; this wrapper restates that contract over the whole list.
#[verifier::external_body]
pub fn batch_resize_parallel(
    inputs: &Vec<SourceImage>,
    out_dir: &str,
    sizes: &Vec<Size>,
    use_png: bool,
) -> (items: Vec<BatchItem>)
    requires
        sizes_ok(sizes@),
    ensures
        batch_wf(items@, inputs@, out_dir@, seq_sizes(sizes@), use_png),
{
    inputs.par_iter().map(|src| resize_one(src, out_dir, sizes, use_png)).collect()
}

// ---------------------------------------------------------------------------
// Aggregate counts and progress
// ---------------------------------------------------------------------------

/// How many entries of a batch outcome succeeded.
pub open spec fn count_successes(items: Seq<BatchItem>) -> int
    decreases items.len(),
{
    if items.len() == 0 {
        0
    } else {
        count_successes(items.drop_last()) + if items.last().outcome is Success {
            1int
        } else {
            0int
        }
    }
}

/// How many entries of a batch outcome failed.
pub open spec fn count_failures(items: Seq<BatchItem>) -> int
    decreases items.len(),
{
    if items.len() == 0 {
        0
    } else {
        count_failures(items.drop_last()) + if items.last().outcome is Failure {
            1int
        } else {
            0int
        }
    }
}

/// Every entry counts exactly once: successes and failures partition a batch
/// outcome.
pub proof fn lemma_counts_partition(items: Seq<BatchItem>)
    ensures
        0 <= count_successes(items),
        0 <= count_failures(items),
        count_successes(items) + count_failures(items) == items.len(),
    decreases items.len(),
{
    if items.len() > 0 {
        lemma_counts_partition(items.drop_last());
    }
}

proof fn lemma_counts_take_succ(items: Seq<BatchItem>, i: int)
    requires
        0 <= i < items.len(),
    ensures
        count_successes(items.take(i + 1)) == count_successes(items.take(i)) + if items[i].outcome
            is Success {
            1int
        } else {
            0int
        },
        count_failures(items.take(i + 1)) == count_failures(items.take(i)) + if items[i].outcome
            is Failure {
            1int
        } else {
            0int
        },
{
    assert(items.take(i + 1).drop_last() =~= items.take(i));
    assert(items.take(i + 1).last() == items[i]);
}

/// Progress counts only grow as a batch advances: what has been reported
/// after a shorter prefix never exceeds what a longer prefix reports.
pub proof fn lemma_counts_monotone(items: Seq<BatchItem>, i: int, j: int)
    requires
        0 <= i <= j <= items.len(),
    ensures
        count_successes(items.take(i)) <= count_successes(items.take(j)),
        count_failures(items.take(i)) <= count_failures(items.take(j)),
    decreases j - i,
{
    if i < j {
        lemma_counts_monotone(items, i + 1, j);
        lemma_counts_take_succ(items, i);
        lemma_counts_partition(items.take(i));
    }
}

// ---------------------------------------------------------------------------
// Laws
// ---------------------------------------------------------------------------

/// Whether a source image's bytes were read and decode as an image.
pub open spec fn source_decodes(src: SourceImage) -> bool {
    match src.data {
        Ok(bytes) => decodes(bytes@),
        Err(_) => false,
    }
}

/// The file paths a per-image outcome produced: one per requested size on
/// success, none on failure.
pub open spec fn success_paths(o: Outcome) -> Seq<Seq<char>> {
    match o {
        Outcome::Success(outs) => outs@.map_values(|x: SizedOutput| x.file_path@),
        Outcome::Failure(_) => Seq::empty(),
    }
}

/// The bytes a per-image outcome produced for each file, in size order.
pub open spec fn success_datas(o: Outcome) -> Seq<Seq<u8>> {
    match o {
        Outcome::Success(outs) => outs@.map_values(|x: SizedOutput| x.data@),
        Outcome::Failure(_) => Seq::empty(),
    }
}

/// Two failures for one source fail at the same stage, as far as the stage is
/// determined: decode failures coincide, and directory failures never arise
/// here.
pub open spec fn failure_stages_agree(o1: Outcome, o2: Outcome) -> bool {
    match (o1, o2) {
        (Outcome::Failure(e1), Outcome::Failure(e2)) => {
            &&& (e1 is Decode <==> e2 is Decode)
            &&& !(e1 is Directory)
            &&& !(e2 is Directory)
        },
        _ => true,
    }
}

/// One request is deterministic: two successful output lists for the same
/// source, output directory, sizes and format name exactly the same files
/// and hold exactly the same bytes, so a rerun overwrites each file with
/// identical content.
pub proof fn lemma_rerun_same_outputs(
    o1: Seq<SizedOutput>,
    o2: Seq<SizedOutput>,
    source_path: Seq<char>,
    bytes: Seq<u8>,
    out_dir: Seq<char>,
    sizes: Seq<SizeView>,
    use_png: bool,
)
    requires
        outputs_wf(o1, source_path, bytes, out_dir, sizes, use_png),
        outputs_wf(o2, source_path, bytes, out_dir, sizes, use_png),
    ensures
        o1.map_values(|x: SizedOutput| x.file_path@) == o2.map_values(
            |x: SizedOutput| x.file_path@,
        ),
        o1.map_values(|x: SizedOutput| x.data@) == o2.map_values(|x: SizedOutput| x.data@),
{
    assert(o1.map_values(|x: SizedOutput| x.file_path@) =~= o2.map_values(
        |x: SizedOutput| x.file_path@,
    ));
    assert(o1.map_values(|x: SizedOutput| x.data@) =~= o2.map_values(|x: SizedOutput| x.data@));
}

/// Whether the encoder accepts every requested variant of a source image's
/// bytes.
pub open spec fn source_encodes_all(src: SourceImage, sizes: Seq<SizeView>, use_png: bool) -> bool {
    match src.data {
        Ok(bytes) => forall|k: int|
            0 <= k < sizes.len() ==> spec_encoding(bytes@, #[trigger] sizes[k], use_png) is Some,
        Err(_) => false,
    }
}

/// Per-image success is owed, and its classification is a function of the
/// source alone: a batch entry succeeds exactly when its source's bytes were
/// read, decode, and every requested variant encodes.
pub proof fn lemma_item_success_iff(
    item: BatchItem,
    src: SourceImage,
    out_dir: Seq<char>,
    sizes: Seq<SizeView>,
    use_png: bool,
)
    requires
        item_wf(item, src, out_dir, sizes, use_png),
    ensures
        item.outcome is Success <==> (source_decodes(src) && source_encodes_all(
            src,
            sizes,
            use_png,
        )),
{
    match (src.data, item.outcome) {
        (Ok(bytes), Outcome::Success(outs)) => {
            assert forall|k: int|
                0 <= k < sizes.len() implies spec_encoding(
                bytes@,
                #[trigger] sizes[k],
                use_png,
            ) is Some by {
                assert(spec_encoding(bytes@, sizes[k], use_png) == Some(outs@[k].data@));
            }
        },
        _ => {},
    }
}

/// Sequential and parallel execution of one batch request agree: the outcome
/// lists pair the same sources in the same input order; each source succeeds
/// in one run exactly when it succeeds in the other; failures fall at the
/// same determined stage; and two successes for one source name exactly the
/// same output files with exactly the same bytes. Only timing may differ.
pub proof fn lemma_strategies_agree(
    r1: Seq<BatchItem>,
    r2: Seq<BatchItem>,
    inputs: Seq<SourceImage>,
    out_dir: Seq<char>,
    sizes: Seq<SizeView>,
    use_png: bool,
)
    requires
        batch_wf(r1, inputs, out_dir, sizes, use_png),
        batch_wf(r2, inputs, out_dir, sizes, use_png),
    ensures
        r1.len() == r2.len(),
        forall|i: int| 0 <= i < r1.len() ==> (#[trigger] r1[i]).source@ == r2[i].source@,
        forall|i: int|
            0 <= i < r1.len() ==> ((#[trigger] r1[i]).outcome is Success <==> r2[i].outcome
                is Success),
        forall|i: int|
            0 <= i < r1.len() ==> failure_stages_agree(
                (#[trigger] r1[i]).outcome,
                r2[i].outcome,
            ),
        forall|i: int|
            0 <= i < r1.len() && (#[trigger] r1[i]).outcome is Success ==> success_paths(
                r1[i].outcome,
            ) == success_paths(r2[i].outcome) && success_datas(r1[i].outcome) == success_datas(
                r2[i].outcome,
            ),
{
    assert forall|i: int|
        0 <= i < r1.len() implies ((#[trigger] r1[i]).outcome is Success <==> r2[i].outcome
        is Success) by {
        assert(item_wf(r1[i], inputs[i], out_dir, sizes, use_png));
        assert(item_wf(r2[i], inputs[i], out_dir, sizes, use_png));
        lemma_item_success_iff(r1[i], inputs[i], out_dir, sizes, use_png);
        lemma_item_success_iff(r2[i], inputs[i], out_dir, sizes, use_png);
    }
    assert forall|i: int|
        0 <= i < r1.len() implies failure_stages_agree(
        (#[trigger] r1[i]).outcome,
        r2[i].outcome,
    ) by {
        assert(item_wf(r1[i], inputs[i], out_dir, sizes, use_png));
        assert(item_wf(r2[i], inputs[i], out_dir, sizes, use_png));
    }
    assert forall|i: int|
        0 <= i < r1.len() && (#[trigger] r1[i]).outcome is Success implies success_paths(
        r1[i].outcome,
    ) == success_paths(r2[i].outcome) && success_datas(r1[i].outcome) == success_datas(
        r2[i].outcome,
    ) by {
        assert(item_wf(r1[i], inputs[i], out_dir, sizes, use_png));
        assert(item_wf(r2[i], inputs[i], out_dir, sizes, use_png));
        lemma_item_success_iff(r1[i], inputs[i], out_dir, sizes, use_png);
        lemma_item_success_iff(r2[i], inputs[i], out_dir, sizes, use_png);
        match (inputs[i].data, r1[i].outcome, r2[i].outcome) {
            (Ok(bytes), Outcome::Success(o1), Outcome::Success(o2)) => {
                lemma_rerun_same_outputs(
                    o1@,
                    o2@,
                    inputs[i].path@,
                    bytes@,
                    out_dir,
                    sizes,
                    use_png,
                );
            },
            _ => {},
        }
    }
}

/// The aggregate counts of a batch outcome.
pub struct BatchSummary {
    pub processed: usize,
    pub successful: usize,
    pub failed: usize,
}

/// Count a batch outcome: how many entries there are, how many succeeded and
/// how many failed.
pub fn summarize(items: &Vec<BatchItem>) -> (s: BatchSummary)
    ensures
        s.processed == items@.len(),
        s.successful == count_successes(items@),
        s.failed == count_failures(items@),
        s.successful + s.failed == s.processed,
{
    let mut successful: usize = 0;
    let mut failed: usize = 0;
    let mut i: usize = 0;
    while i < items.len()
        invariant
            i <= items@.len(),
            successful == count_successes(items@.take(i as int)),
            failed == count_failures(items@.take(i as int)),
            successful + failed == i,
        decreases items@.len() - i,
    {
        proof {
            lemma_counts_take_succ(items@, i as int);
        }
        match &items[i].outcome {
            Outcome::Success(_) => {
                successful = successful + 1;
            },
            Outcome::Failure(_) => {
                failed = failed + 1;
            },
        }
        i = i + 1;
    }
    proof {
        assert(items@.take(items@.len() as int) =~= items@);
    }
    BatchSummary { processed: items.len(), successful, failed }
}

} // verus!
