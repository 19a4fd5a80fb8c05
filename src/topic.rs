use vstd::prelude::*;
use vstd::string::*;

verus! {

/// Schema name of the still-image message that is turned into video.
pub open spec fn still_image_schema() -> Seq<char> {
    "foxglove.CompressedImage"@
}

/// Schema encoding of a serialized protobuf descriptor set.
pub open spec fn protobuf_encoding() -> Seq<char> {
    "protobuf"@
}

/// Suffix appended to an input topic to name its video topic.
pub open spec fn video_suffix() -> Seq<char> {
    "_video"@
}

/// The video topic derived from input topic `t`.
pub open spec fn output_topic_of(t: Seq<char>) -> Seq<char> {
    t + video_suffix()
}

/// Whether a record whose channel has this schema name and schema encoding
/// carries a still image to transcode.
pub open spec fn is_still_image_spec(schema_name: Seq<char>, schema_encoding: Seq<char>) -> bool {
    schema_name == still_image_schema() && schema_encoding == protobuf_encoding()
}

/// Classifies a record by its channel's schema: `true` exactly when both the
/// schema name and the schema encoding are those of the still-image message.
pub fn is_still_image(schema_name: &String, schema_encoding: &String) -> (r: bool)
    ensures
        r == is_still_image_spec(schema_name@, schema_encoding@),
{
    let image = String::from_str("foxglove.CompressedImage");
    let proto = String::from_str("protobuf");
    *schema_name == image && *schema_encoding == proto
}

/// The video topic for input topic `topic`: the topic followed by `_video`.
pub fn output_topic(topic: &String) -> (r: String)
    ensures
        r@ == output_topic_of(topic@),
{
    let mut t = topic.clone();
    t.append("_video");
    t
}

/// Two input topics share a video topic only if they are the same topic.
pub proof fn lemma_output_topic_injective(a: Seq<char>, b: Seq<char>)
    requires
        output_topic_of(a) == output_topic_of(b),
    ensures
        a == b,
{
    let n = video_suffix().len();
    assert(output_topic_of(a).len() == a.len() + n);
    assert(output_topic_of(b).len() == b.len() + n);
    assert(a.len() == b.len());
    assert(a =~= output_topic_of(a).subrange(0, a.len() as int));
    assert(b =~= output_topic_of(b).subrange(0, b.len() as int));
}

/// The video topic is the input topic with the suffix after it, and nothing else.
pub proof fn lemma_output_topic_shape(t: Seq<char>)
    ensures
        output_topic_of(t).len() == t.len() + video_suffix().len(),
        output_topic_of(t).subrange(0, t.len() as int) == t,
        output_topic_of(t).subrange(t.len() as int, output_topic_of(t).len() as int)
            == video_suffix(),
{
    assert(output_topic_of(t).subrange(0, t.len() as int) =~= t);
    assert(output_topic_of(t).subrange(t.len() as int, output_topic_of(t).len() as int)
        =~= video_suffix());
}

} // verus!
