//! The short names stand in `NAMES` in dictionary order, each before the
//! next, so no two entry points share a name, a symbol or a failure text.

use crate::entry::{EntryPoint, ENTRY_POINT_COUNT};
use crate::names::NAMES;
use crate::registry::NotLoaded;
use vstd::prelude::*;

verus! {

/// `a` and `b` agree before position `at`, and there `a` ends or has the
/// smaller character, while `b` goes on.
pub open spec fn parts_at(a: Seq<char>, b: Seq<char>, at: int) -> bool {
    &&& 0 <= at <= a.len()
    &&& at < b.len()
    &&& forall|k: int| 0 <= k < at ==> a[k] == b[k]
    &&& (at == a.len() || (a[at] as u32) < (b[at] as u32))
}

/// `a` stands before `b` in dictionary order.
pub open spec fn comes_before(a: Seq<char>, b: Seq<char>) -> bool {
    exists|at: int| parts_at(a, b, at)
}

/// Nothing stands before itself.
pub proof fn lemma_before_is_irreflexive(a: Seq<char>)
    ensures
        !comes_before(a, a),
{
}

/// What stands before something that stands before `c`, stands before `c`.
pub proof fn lemma_before_is_transitive(a: Seq<char>, b: Seq<char>, c: Seq<char>)
    requires
        comes_before(a, b),
        comes_before(b, c),
    ensures
        comes_before(a, c),
{
    let i = choose|at: int| parts_at(a, b, at);
    let j = choose|at: int| parts_at(b, c, at);
    if i <= j {
        assert(parts_at(a, c, i));
    } else {
        assert(parts_at(a, c, j));
    }
}

/// Each short name stands before every later one.
pub proof fn lemma_names_ascend(i: int, j: int)
    requires
        0 <= i < j < ENTRY_POINT_COUNT,
    ensures
        comes_before(NAMES[i]@, NAMES[j]@),
    decreases j - i,
{
    if j == i + 1 {
        lemma_next_name_is_later(i);
    } else {
        lemma_names_ascend(i, j - 1);
        lemma_next_name_is_later(j - 1);
        lemma_before_is_transitive(NAMES[i]@, NAMES[j - 1]@, NAMES[j]@);
    }
}

/// No two entry points share a short name or an symbol.
pub proof fn lemma_names_differ(a: EntryPoint, b: EntryPoint)
    requires
        a != b,
    ensures
        a.spec_name()@ != b.spec_name()@,
        a.spec_symbol()@ != b.spec_symbol()@,
{
    a.lemma_listed();
    b.lemma_listed();
    let i = a.spec_index();
    let j = b.spec_index();
    if i == j {
        EntryPoint::lemma_index_injective(a, b);
    } else if i < j {
        lemma_names_ascend(i, j);
        lemma_before_is_irreflexive(NAMES[i]@);
    } else {
        lemma_names_ascend(j, i);
        lemma_before_is_irreflexive(NAMES[j]@);
    }
    a.lemma_symbol_is_prefixed_name();
    b.lemma_symbol_is_prefixed_name();
    let prefix = "gl"@;
    if a.spec_symbol()@ == b.spec_symbol()@ {
        assert(a.spec_name()@ =~= (prefix + a.spec_name()@).subrange(
            prefix.len() as int,
            (prefix + a.spec_name()@).len() as int,
        ));
        assert(b.spec_name()@ =~= (prefix + b.spec_name()@).subrange(
            prefix.len() as int,
            (prefix + b.spec_name()@).len() as int,
        ));
    }
}

/// The text of a failure tells which entry point was not loaded: two
/// failures with one text name one entry point.
pub proof fn lemma_failure_text_identifies_entry(a: NotLoaded, b: NotLoaded)
    requires
        a.spec_message() == b.spec_message(),
    ensures
        a == b,
{
    let suffix = " was not loaded"@;
    let x = a.entry.spec_name()@;
    let y = b.entry.spec_name()@;
    assert((x + suffix).len() == x.len() + suffix.len());
    assert((y + suffix).len() == y.len() + suffix.len());
    assert(x =~= (x + suffix).subrange(0, x.len() as int));
    assert(y =~= (y + suffix).subrange(0, y.len() as int));
    if a.entry != b.entry {
        lemma_names_differ(a.entry, b.entry);
    }
}

/// Each short name but the last stands before the next one.
proof fn lemma_next_name_is_later(i: int)
    requires
        0 <= i < ENTRY_POINT_COUNT - 1,
    ensures
        comes_before(NAMES[i]@, NAMES[i + 1]@),
{
    if i < 16 {
        lemma_later_from_0(i);
    } else if i < 32 {
        lemma_later_from_16(i);
    } else if i < 48 {
        lemma_later_from_32(i);
    } else if i < 64 {
        lemma_later_from_48(i);
    } else if i < 80 {
        lemma_later_from_64(i);
    } else if i < 96 {
        lemma_later_from_80(i);
    } else if i < 112 {
        lemma_later_from_96(i);
    } else if i < 128 {
        lemma_later_from_112(i);
    } else if i < 144 {
        lemma_later_from_128(i);
    } else if i < 160 {
        lemma_later_from_144(i);
    } else if i < 176 {
        lemma_later_from_160(i);
    } else if i < 192 {
        lemma_later_from_176(i);
    } else if i < 208 {
        lemma_later_from_192(i);
    } else if i < 224 {
        lemma_later_from_208(i);
    } else if i < 240 {
        lemma_later_from_224(i);
    } else if i < 256 {
        lemma_later_from_240(i);
    } else if i < 272 {
        lemma_later_from_256(i);
    } else if i < 288 {
        lemma_later_from_272(i);
    } else if i < 304 {
        lemma_later_from_288(i);
    } else if i < 320 {
        lemma_later_from_304(i);
    } else if i < 336 {
        lemma_later_from_320(i);
    } else if i < 352 {
        lemma_later_from_336(i);
    } else if i < 368 {
        lemma_later_from_352(i);
    } else if i < 384 {
        lemma_later_from_368(i);
    } else if i < 400 {
        lemma_later_from_384(i);
    } else if i < 416 {
        lemma_later_from_400(i);
    } else if i < 432 {
        lemma_later_from_416(i);
    } else if i < 448 {
        lemma_later_from_432(i);
    } else if i < 464 {
        lemma_later_from_448(i);
    } else if i < 480 {
        lemma_later_from_464(i);
    } else if i < 496 {
        lemma_later_from_480(i);
    } else if i < 512 {
        lemma_later_from_496(i);
    } else if i < 528 {
        lemma_later_from_512(i);
    } else if i < 544 {
        lemma_later_from_528(i);
    } else if i < 560 {
        lemma_later_from_544(i);
    } else if i < 562 {
        lemma_later_from_560(i);
    }
}

proof fn lemma_later_from_0(i: int)
    requires
        0 <= i < 16,
    ensures
        comes_before(NAMES[i]@, NAMES[i + 1]@),
{
    reveal_strlit("ActiveShaderProgram");
    reveal_strlit("ActiveTexture");
    reveal_strlit("AttachShader");
    reveal_strlit("BeginConditionalRender");
    reveal_strlit("BeginQuery");
    reveal_strlit("BeginQueryIndexed");
    reveal_strlit("BeginTransformFeedback");
    reveal_strlit("BindAttribLocation");
    reveal_strlit("BindBuffer");
    reveal_strlit("BindBufferBase");
    reveal_strlit("BindBufferRange");
    reveal_strlit("BindFragDataLocation");
    reveal_strlit("BindFragDataLocationIndexed");
    reveal_strlit("BindFramebuffer");
    reveal_strlit("BindImageTexture");
    reveal_strlit("BindProgramPipeline");
    reveal_strlit("BindRenderbuffer");
    assert(parts_at(NAMES[0]@, NAMES[1]@, 6));
    assert(parts_at(NAMES[1]@, NAMES[2]@, 1));
    assert(parts_at(NAMES[2]@, NAMES[3]@, 0));
    assert(parts_at(NAMES[3]@, NAMES[4]@, 5));
    assert(parts_at(NAMES[4]@, NAMES[5]@, 10));
    assert(parts_at(NAMES[5]@, NAMES[6]@, 5));
    assert(parts_at(NAMES[6]@, NAMES[7]@, 1));
    assert(parts_at(NAMES[7]@, NAMES[8]@, 4));
    assert(parts_at(NAMES[8]@, NAMES[9]@, 10));
    assert(parts_at(NAMES[9]@, NAMES[10]@, 10));
    assert(parts_at(NAMES[10]@, NAMES[11]@, 4));
    assert(parts_at(NAMES[11]@, NAMES[12]@, 20));
    assert(parts_at(NAMES[12]@, NAMES[13]@, 7));
    assert(parts_at(NAMES[13]@, NAMES[14]@, 4));
    assert(parts_at(NAMES[14]@, NAMES[15]@, 4));
    assert(parts_at(NAMES[15]@, NAMES[16]@, 4));
}

proof fn lemma_later_from_16(i: int)
    requires
        16 <= i < 32,
    ensures
        comes_before(NAMES[i]@, NAMES[i + 1]@),
{
    reveal_strlit("BindRenderbuffer");
    reveal_strlit("BindSampler");
    reveal_strlit("BindTexture");
    reveal_strlit("BindTransformFeedback");
    reveal_strlit("BindVertexArray");
    reveal_strlit("BindVertexBuffer");
    reveal_strlit("BlendColor");
    reveal_strlit("BlendEquation");
    reveal_strlit("BlendEquationSeparate");
    reveal_strlit("BlendEquationSeparatei");
    reveal_strlit("BlendEquationi");
    reveal_strlit("BlendFunc");
    reveal_strlit("BlendFuncSeparate");
    reveal_strlit("BlendFuncSeparatei");
    reveal_strlit("BlendFunci");
    reveal_strlit("BlitFramebuffer");
    reveal_strlit("BufferData");
    assert(parts_at(NAMES[16]@, NAMES[17]@, 4));
    assert(parts_at(NAMES[17]@, NAMES[18]@, 4));
    assert(parts_at(NAMES[18]@, NAMES[19]@, 5));
    assert(parts_at(NAMES[19]@, NAMES[20]@, 4));
    assert(parts_at(NAMES[20]@, NAMES[21]@, 10));
    assert(parts_at(NAMES[21]@, NAMES[22]@, 1));
    assert(parts_at(NAMES[22]@, NAMES[23]@, 5));
    assert(parts_at(NAMES[23]@, NAMES[24]@, 13));
    assert(parts_at(NAMES[24]@, NAMES[25]@, 21));
    assert(parts_at(NAMES[25]@, NAMES[26]@, 13));
    assert(parts_at(NAMES[26]@, NAMES[27]@, 5));
    assert(parts_at(NAMES[27]@, NAMES[28]@, 9));
    assert(parts_at(NAMES[28]@, NAMES[29]@, 17));
    assert(parts_at(NAMES[29]@, NAMES[30]@, 9));
    assert(parts_at(NAMES[30]@, NAMES[31]@, 2));
    assert(parts_at(NAMES[31]@, NAMES[32]@, 1));
}

proof fn lemma_later_from_32(i: int)
    requires
        32 <= i < 48,
    ensures
        comes_before(NAMES[i]@, NAMES[i + 1]@),
{
    reveal_strlit("BufferData");
    reveal_strlit("BufferSubData");
    reveal_strlit("CheckFramebufferStatus");
    reveal_strlit("ClampColor");
    reveal_strlit("Clear");
    reveal_strlit("ClearBufferData");
    reveal_strlit("ClearBufferSubData");
    reveal_strlit("ClearBufferfi");
    reveal_strlit("ClearBufferfv");
    reveal_strlit("ClearBufferiv");
    reveal_strlit("ClearBufferuiv");
    reveal_strlit("ClearColor");
    reveal_strlit("ClearDepth");
    reveal_strlit("ClearDepthf");
    reveal_strlit("ClearStencil");
    reveal_strlit("ClientWaitSync");
    reveal_strlit("ColorMask");
    assert(parts_at(NAMES[32]@, NAMES[33]@, 6));
    assert(parts_at(NAMES[33]@, NAMES[34]@, 0));
    assert(parts_at(NAMES[34]@, NAMES[35]@, 1));
    assert(parts_at(NAMES[35]@, NAMES[36]@, 2));
    assert(parts_at(NAMES[36]@, NAMES[37]@, 5));
    assert(parts_at(NAMES[37]@, NAMES[38]@, 11));
    assert(parts_at(NAMES[38]@, NAMES[39]@, 11));
    assert(parts_at(NAMES[39]@, NAMES[40]@, 12));
    assert(parts_at(NAMES[40]@, NAMES[41]@, 11));
    assert(parts_at(NAMES[41]@, NAMES[42]@, 11));
    assert(parts_at(NAMES[42]@, NAMES[43]@, 5));
    assert(parts_at(NAMES[43]@, NAMES[44]@, 5));
    assert(parts_at(NAMES[44]@, NAMES[45]@, 10));
    assert(parts_at(NAMES[45]@, NAMES[46]@, 5));
    assert(parts_at(NAMES[46]@, NAMES[47]@, 2));
    assert(parts_at(NAMES[47]@, NAMES[48]@, 1));
}

proof fn lemma_later_from_48(i: int)
    requires
        48 <= i < 64,
    ensures
        comes_before(NAMES[i]@, NAMES[i + 1]@),
{
    reveal_strlit("ColorMask");
    reveal_strlit("ColorMaski");
    reveal_strlit("ColorP3ui");
    reveal_strlit("ColorP3uiv");
    reveal_strlit("ColorP4ui");
    reveal_strlit("ColorP4uiv");
    reveal_strlit("CompileShader");
    reveal_strlit("CompressedTexImage1D");
    reveal_strlit("CompressedTexImage2D");
    reveal_strlit("CompressedTexImage3D");
    reveal_strlit("CompressedTexSubImage1D");
    reveal_strlit("CompressedTexSubImage2D");
    reveal_strlit("CompressedTexSubImage3D");
    reveal_strlit("CopyBufferSubData");
    reveal_strlit("CopyImageSubData");
    reveal_strlit("CopyTexImage1D");
    reveal_strlit("CopyTexImage2D");
    assert(parts_at(NAMES[48]@, NAMES[49]@, 9));
    assert(parts_at(NAMES[49]@, NAMES[50]@, 5));
    assert(parts_at(NAMES[50]@, NAMES[51]@, 9));
    assert(parts_at(NAMES[51]@, NAMES[52]@, 6));
    assert(parts_at(NAMES[52]@, NAMES[53]@, 9));
    assert(parts_at(NAMES[53]@, NAMES[54]@, 2));
    assert(parts_at(NAMES[54]@, NAMES[55]@, 4));
    assert(parts_at(NAMES[55]@, NAMES[56]@, 18));
    assert(parts_at(NAMES[56]@, NAMES[57]@, 18));
    assert(parts_at(NAMES[57]@, NAMES[58]@, 13));
    assert(parts_at(NAMES[58]@, NAMES[59]@, 21));
    assert(parts_at(NAMES[59]@, NAMES[60]@, 21));
    assert(parts_at(NAMES[60]@, NAMES[61]@, 2));
    assert(parts_at(NAMES[61]@, NAMES[62]@, 4));
    assert(parts_at(NAMES[62]@, NAMES[63]@, 4));
    assert(parts_at(NAMES[63]@, NAMES[64]@, 12));
}

proof fn lemma_later_from_64(i: int)
    requires
        64 <= i < 80,
    ensures
        comes_before(NAMES[i]@, NAMES[i + 1]@),
{
    reveal_strlit("CopyTexImage2D");
    reveal_strlit("CopyTexSubImage1D");
    reveal_strlit("CopyTexSubImage2D");
    reveal_strlit("CopyTexSubImage3D");
    reveal_strlit("CreateProgram");
    reveal_strlit("CreateShader");
    reveal_strlit("CreateShaderProgramv");
    reveal_strlit("CullFace");
    reveal_strlit("DebugMessageCallback");
    reveal_strlit("DebugMessageControl");
    reveal_strlit("DebugMessageInsert");
    reveal_strlit("DeleteBuffers");
    reveal_strlit("DeleteFramebuffers");
    reveal_strlit("DeleteProgram");
    reveal_strlit("DeleteProgramPipelines");
    reveal_strlit("DeleteQueries");
    reveal_strlit("DeleteRenderbuffers");
    assert(parts_at(NAMES[64]@, NAMES[65]@, 7));
    assert(parts_at(NAMES[65]@, NAMES[66]@, 15));
    assert(parts_at(NAMES[66]@, NAMES[67]@, 15));
    assert(parts_at(NAMES[67]@, NAMES[68]@, 1));
    assert(parts_at(NAMES[68]@, NAMES[69]@, 6));
    assert(parts_at(NAMES[69]@, NAMES[70]@, 12));
    assert(parts_at(NAMES[70]@, NAMES[71]@, 1));
    assert(parts_at(NAMES[71]@, NAMES[72]@, 0));
    assert(parts_at(NAMES[72]@, NAMES[73]@, 13));
    assert(parts_at(NAMES[73]@, NAMES[74]@, 12));
    assert(parts_at(NAMES[74]@, NAMES[75]@, 2));
    assert(parts_at(NAMES[75]@, NAMES[76]@, 6));
    assert(parts_at(NAMES[76]@, NAMES[77]@, 6));
    assert(parts_at(NAMES[77]@, NAMES[78]@, 13));
    assert(parts_at(NAMES[78]@, NAMES[79]@, 6));
    assert(parts_at(NAMES[79]@, NAMES[80]@, 6));
}

proof fn lemma_later_from_80(i: int)
    requires
        80 <= i < 96,
    ensures
        comes_before(NAMES[i]@, NAMES[i + 1]@),
{
    reveal_strlit("DeleteRenderbuffers");
    reveal_strlit("DeleteSamplers");
    reveal_strlit("DeleteShader");
    reveal_strlit("DeleteSync");
    reveal_strlit("DeleteTextures");
    reveal_strlit("DeleteTransformFeedbacks");
    reveal_strlit("DeleteVertexArrays");
    reveal_strlit("DepthFunc");
    reveal_strlit("DepthMask");
    reveal_strlit("DepthRange");
    reveal_strlit("DepthRangeArrayv");
    reveal_strlit("DepthRangeIndexed");
    reveal_strlit("DepthRangef");
    reveal_strlit("DetachShader");
    reveal_strlit("Disable");
    reveal_strlit("DisableVertexAttribArray");
    reveal_strlit("Disablei");
    assert(parts_at(NAMES[80]@, NAMES[81]@, 6));
    assert(parts_at(NAMES[81]@, NAMES[82]@, 7));
    assert(parts_at(NAMES[82]@, NAMES[83]@, 7));
    assert(parts_at(NAMES[83]@, NAMES[84]@, 6));
    assert(parts_at(NAMES[84]@, NAMES[85]@, 7));
    assert(parts_at(NAMES[85]@, NAMES[86]@, 6));
    assert(parts_at(NAMES[86]@, NAMES[87]@, 2));
    assert(parts_at(NAMES[87]@, NAMES[88]@, 5));
    assert(parts_at(NAMES[88]@, NAMES[89]@, 5));
    assert(parts_at(NAMES[89]@, NAMES[90]@, 10));
    assert(parts_at(NAMES[90]@, NAMES[91]@, 10));
    assert(parts_at(NAMES[91]@, NAMES[92]@, 10));
    assert(parts_at(NAMES[92]@, NAMES[93]@, 2));
    assert(parts_at(NAMES[93]@, NAMES[94]@, 1));
    assert(parts_at(NAMES[94]@, NAMES[95]@, 7));
    assert(parts_at(NAMES[95]@, NAMES[96]@, 7));
}

proof fn lemma_later_from_96(i: int)
    requires
        96 <= i < 112,
    ensures
        comes_before(NAMES[i]@, NAMES[i + 1]@),
{
    reveal_strlit("Disablei");
    reveal_strlit("DispatchCompute");
    reveal_strlit("DispatchComputeIndirect");
    reveal_strlit("DrawArrays");
    reveal_strlit("DrawArraysIndirect");
    reveal_strlit("DrawArraysInstanced");
    reveal_strlit("DrawArraysInstancedBaseInstance");
    reveal_strlit("DrawBuffer");
    reveal_strlit("DrawBuffers");
    reveal_strlit("DrawElements");
    reveal_strlit("DrawElementsBaseVertex");
    reveal_strlit("DrawElementsIndirect");
    reveal_strlit("DrawElementsInstanced");
    reveal_strlit("DrawElementsInstancedBaseInstance");
    reveal_strlit("DrawElementsInstancedBaseVertex");
    reveal_strlit("DrawElementsInstancedBaseVertexBaseInstance");
    reveal_strlit("DrawRangeElements");
    assert(parts_at(NAMES[96]@, NAMES[97]@, 3));
    assert(parts_at(NAMES[97]@, NAMES[98]@, 15));
    assert(parts_at(NAMES[98]@, NAMES[99]@, 1));
    assert(parts_at(NAMES[99]@, NAMES[100]@, 10));
    assert(parts_at(NAMES[100]@, NAMES[101]@, 12));
    assert(parts_at(NAMES[101]@, NAMES[102]@, 19));
    assert(parts_at(NAMES[102]@, NAMES[103]@, 4));
    assert(parts_at(NAMES[103]@, NAMES[104]@, 10));
    assert(parts_at(NAMES[104]@, NAMES[105]@, 4));
    assert(parts_at(NAMES[105]@, NAMES[106]@, 12));
    assert(parts_at(NAMES[106]@, NAMES[107]@, 12));
    assert(parts_at(NAMES[107]@, NAMES[108]@, 14));
    assert(parts_at(NAMES[108]@, NAMES[109]@, 21));
    assert(parts_at(NAMES[109]@, NAMES[110]@, 25));
    assert(parts_at(NAMES[110]@, NAMES[111]@, 31));
    assert(parts_at(NAMES[111]@, NAMES[112]@, 4));
}

proof fn lemma_later_from_112(i: int)
    requires
        112 <= i < 128,
    ensures
        comes_before(NAMES[i]@, NAMES[i + 1]@),
{
    reveal_strlit("DrawRangeElements");
    reveal_strlit("DrawRangeElementsBaseVertex");
    reveal_strlit("DrawTransformFeedback");
    reveal_strlit("DrawTransformFeedbackInstanced");
    reveal_strlit("DrawTransformFeedbackStream");
    reveal_strlit("DrawTransformFeedbackStreamInstanced");
    reveal_strlit("Enable");
    reveal_strlit("EnableVertexAttribArray");
    reveal_strlit("Enablei");
    reveal_strlit("EndConditionalRender");
    reveal_strlit("EndQuery");
    reveal_strlit("EndQueryIndexed");
    reveal_strlit("EndTransformFeedback");
    reveal_strlit("FenceSync");
    reveal_strlit("Finish");
    reveal_strlit("Flush");
    reveal_strlit("FlushMappedBufferRange");
    assert(parts_at(NAMES[112]@, NAMES[113]@, 17));
    assert(parts_at(NAMES[113]@, NAMES[114]@, 4));
    assert(parts_at(NAMES[114]@, NAMES[115]@, 21));
    assert(parts_at(NAMES[115]@, NAMES[116]@, 21));
    assert(parts_at(NAMES[116]@, NAMES[117]@, 27));
    assert(parts_at(NAMES[117]@, NAMES[118]@, 0));
    assert(parts_at(NAMES[118]@, NAMES[119]@, 6));
    assert(parts_at(NAMES[119]@, NAMES[120]@, 6));
    assert(parts_at(NAMES[120]@, NAMES[121]@, 2));
    assert(parts_at(NAMES[121]@, NAMES[122]@, 3));
    assert(parts_at(NAMES[122]@, NAMES[123]@, 8));
    assert(parts_at(NAMES[123]@, NAMES[124]@, 3));
    assert(parts_at(NAMES[124]@, NAMES[125]@, 0));
    assert(parts_at(NAMES[125]@, NAMES[126]@, 1));
    assert(parts_at(NAMES[126]@, NAMES[127]@, 1));
    assert(parts_at(NAMES[127]@, NAMES[128]@, 5));
}

proof fn lemma_later_from_128(i: int)
    requires
        128 <= i < 144,
    ensures
        comes_before(NAMES[i]@, NAMES[i + 1]@),
{
    reveal_strlit("FlushMappedBufferRange");
    reveal_strlit("FramebufferParameteri");
    reveal_strlit("FramebufferRenderbuffer");
    reveal_strlit("FramebufferTexture");
    reveal_strlit("FramebufferTexture1D");
    reveal_strlit("FramebufferTexture2D");
    reveal_strlit("FramebufferTexture3D");
    reveal_strlit("FramebufferTextureLayer");
    reveal_strlit("FrontFace");
    reveal_strlit("GenBuffers");
    reveal_strlit("GenFramebuffers");
    reveal_strlit("GenProgramPipelines");
    reveal_strlit("GenQueries");
    reveal_strlit("GenRenderbuffers");
    reveal_strlit("GenSamplers");
    reveal_strlit("GenTextures");
    reveal_strlit("GenTransformFeedbacks");
    assert(parts_at(NAMES[128]@, NAMES[129]@, 1));
    assert(parts_at(NAMES[129]@, NAMES[130]@, 11));
    assert(parts_at(NAMES[130]@, NAMES[131]@, 11));
    assert(parts_at(NAMES[131]@, NAMES[132]@, 18));
    assert(parts_at(NAMES[132]@, NAMES[133]@, 18));
    assert(parts_at(NAMES[133]@, NAMES[134]@, 18));
    assert(parts_at(NAMES[134]@, NAMES[135]@, 18));
    assert(parts_at(NAMES[135]@, NAMES[136]@, 2));
    assert(parts_at(NAMES[136]@, NAMES[137]@, 0));
    assert(parts_at(NAMES[137]@, NAMES[138]@, 3));
    assert(parts_at(NAMES[138]@, NAMES[139]@, 3));
    assert(parts_at(NAMES[139]@, NAMES[140]@, 3));
    assert(parts_at(NAMES[140]@, NAMES[141]@, 3));
    assert(parts_at(NAMES[141]@, NAMES[142]@, 3));
    assert(parts_at(NAMES[142]@, NAMES[143]@, 3));
    assert(parts_at(NAMES[143]@, NAMES[144]@, 4));
}

proof fn lemma_later_from_144(i: int)
    requires
        144 <= i < 160,
    ensures
        comes_before(NAMES[i]@, NAMES[i + 1]@),
{
    reveal_strlit("GenTransformFeedbacks");
    reveal_strlit("GenVertexArrays");
    reveal_strlit("GenerateMipmap");
    reveal_strlit("GetActiveAtomicCounterBufferiv");
    reveal_strlit("GetActiveAttrib");
    reveal_strlit("GetActiveSubroutineName");
    reveal_strlit("GetActiveSubroutineUniformName");
    reveal_strlit("GetActiveSubroutineUniformiv");
    reveal_strlit("GetActiveUniform");
    reveal_strlit("GetActiveUniformBlockName");
    reveal_strlit("GetActiveUniformBlockiv");
    reveal_strlit("GetActiveUniformName");
    reveal_strlit("GetActiveUniformsiv");
    reveal_strlit("GetAttachedShaders");
    reveal_strlit("GetAttribLocation");
    reveal_strlit("GetBooleani_v");
    reveal_strlit("GetBooleanv");
    assert(parts_at(NAMES[144]@, NAMES[145]@, 3));
    assert(parts_at(NAMES[145]@, NAMES[146]@, 3));
    assert(parts_at(NAMES[146]@, NAMES[147]@, 2));
    assert(parts_at(NAMES[147]@, NAMES[148]@, 11));
    assert(parts_at(NAMES[148]@, NAMES[149]@, 9));
    assert(parts_at(NAMES[149]@, NAMES[150]@, 19));
    assert(parts_at(NAMES[150]@, NAMES[151]@, 26));
    assert(parts_at(NAMES[151]@, NAMES[152]@, 9));
    assert(parts_at(NAMES[152]@, NAMES[153]@, 16));
    assert(parts_at(NAMES[153]@, NAMES[154]@, 21));
    assert(parts_at(NAMES[154]@, NAMES[155]@, 16));
    assert(parts_at(NAMES[155]@, NAMES[156]@, 16));
    assert(parts_at(NAMES[156]@, NAMES[157]@, 4));
    assert(parts_at(NAMES[157]@, NAMES[158]@, 6));
    assert(parts_at(NAMES[158]@, NAMES[159]@, 3));
    assert(parts_at(NAMES[159]@, NAMES[160]@, 10));
}

proof fn lemma_later_from_160(i: int)
    requires
        160 <= i < 176,
    ensures
        comes_before(NAMES[i]@, NAMES[i + 1]@),
{
    reveal_strlit("GetBooleanv");
    reveal_strlit("GetBufferParameteri64v");
    reveal_strlit("GetBufferParameteriv");
    reveal_strlit("GetBufferPointerv");
    reveal_strlit("GetBufferSubData");
    reveal_strlit("GetCompressedTexImage");
    reveal_strlit("GetDebugMessageLog");
    reveal_strlit("GetDoublei_v");
    reveal_strlit("GetDoublev");
    reveal_strlit("GetError");
    reveal_strlit("GetFloati_v");
    reveal_strlit("GetFloatv");
    reveal_strlit("GetFragDataIndex");
    reveal_strlit("GetFragDataLocation");
    reveal_strlit("GetFramebufferAttachmentParameteriv");
    reveal_strlit("GetFramebufferParameteriv");
    reveal_strlit("GetInteger64i_v");
    assert(parts_at(NAMES[160]@, NAMES[161]@, 4));
    assert(parts_at(NAMES[161]@, NAMES[162]@, 19));
    assert(parts_at(NAMES[162]@, NAMES[163]@, 10));
    assert(parts_at(NAMES[163]@, NAMES[164]@, 9));
    assert(parts_at(NAMES[164]@, NAMES[165]@, 3));
    assert(parts_at(NAMES[165]@, NAMES[166]@, 3));
    assert(parts_at(NAMES[166]@, NAMES[167]@, 4));
    assert(parts_at(NAMES[167]@, NAMES[168]@, 9));
    assert(parts_at(NAMES[168]@, NAMES[169]@, 3));
    assert(parts_at(NAMES[169]@, NAMES[170]@, 3));
    assert(parts_at(NAMES[170]@, NAMES[171]@, 8));
    assert(parts_at(NAMES[171]@, NAMES[172]@, 4));
    assert(parts_at(NAMES[172]@, NAMES[173]@, 11));
    assert(parts_at(NAMES[173]@, NAMES[174]@, 6));
    assert(parts_at(NAMES[174]@, NAMES[175]@, 14));
    assert(parts_at(NAMES[175]@, NAMES[176]@, 3));
}

proof fn lemma_later_from_176(i: int)
    requires
        176 <= i < 192,
    ensures
        comes_before(NAMES[i]@, NAMES[i + 1]@),
{
    reveal_strlit("GetInteger64i_v");
    reveal_strlit("GetInteger64v");
    reveal_strlit("GetIntegeri_v");
    reveal_strlit("GetIntegerv");
    reveal_strlit("GetInternalformati64v");
    reveal_strlit("GetInternalformativ");
    reveal_strlit("GetMultisamplefv");
    reveal_strlit("GetObjectLabel");
    reveal_strlit("GetObjectPtrLabel");
    reveal_strlit("GetProgramBinary");
    reveal_strlit("GetProgramInfoLog");
    reveal_strlit("GetProgramInterfaceiv");
    reveal_strlit("GetProgramPipelineInfoLog");
    reveal_strlit("GetProgramPipelineiv");
    reveal_strlit("GetProgramResourceIndex");
    reveal_strlit("GetProgramResourceLocation");
    reveal_strlit("GetProgramResourceLocationIndex");
    assert(parts_at(NAMES[176]@, NAMES[177]@, 12));
    assert(parts_at(NAMES[177]@, NAMES[178]@, 10));
    assert(parts_at(NAMES[178]@, NAMES[179]@, 10));
    assert(parts_at(NAMES[179]@, NAMES[180]@, 7));
    assert(parts_at(NAMES[180]@, NAMES[181]@, 18));
    assert(parts_at(NAMES[181]@, NAMES[182]@, 3));
    assert(parts_at(NAMES[182]@, NAMES[183]@, 3));
    assert(parts_at(NAMES[183]@, NAMES[184]@, 9));
    assert(parts_at(NAMES[184]@, NAMES[185]@, 3));
    assert(parts_at(NAMES[185]@, NAMES[186]@, 10));
    assert(parts_at(NAMES[186]@, NAMES[187]@, 12));
    assert(parts_at(NAMES[187]@, NAMES[188]@, 10));
    assert(parts_at(NAMES[188]@, NAMES[189]@, 18));
    assert(parts_at(NAMES[189]@, NAMES[190]@, 10));
    assert(parts_at(NAMES[190]@, NAMES[191]@, 18));
    assert(parts_at(NAMES[191]@, NAMES[192]@, 26));
}

proof fn lemma_later_from_192(i: int)
    requires
        192 <= i < 208,
    ensures
        comes_before(NAMES[i]@, NAMES[i + 1]@),
{
    reveal_strlit("GetProgramResourceLocationIndex");
    reveal_strlit("GetProgramResourceName");
    reveal_strlit("GetProgramResourceiv");
    reveal_strlit("GetProgramStageiv");
    reveal_strlit("GetProgramiv");
    reveal_strlit("GetQueryIndexediv");
    reveal_strlit("GetQueryObjecti64v");
    reveal_strlit("GetQueryObjectiv");
    reveal_strlit("GetQueryObjectui64v");
    reveal_strlit("GetQueryObjectuiv");
    reveal_strlit("GetQueryiv");
    reveal_strlit("GetRenderbufferParameteriv");
    reveal_strlit("GetSamplerParameterIiv");
    reveal_strlit("GetSamplerParameterIuiv");
    reveal_strlit("GetSamplerParameterfv");
    reveal_strlit("GetSamplerParameteriv");
    reveal_strlit("GetShaderInfoLog");
    assert(parts_at(NAMES[192]@, NAMES[193]@, 18));
    assert(parts_at(NAMES[193]@, NAMES[194]@, 18));
    assert(parts_at(NAMES[194]@, NAMES[195]@, 10));
    assert(parts_at(NAMES[195]@, NAMES[196]@, 10));
    assert(parts_at(NAMES[196]@, NAMES[197]@, 3));
    assert(parts_at(NAMES[197]@, NAMES[198]@, 8));
    assert(parts_at(NAMES[198]@, NAMES[199]@, 15));
    assert(parts_at(NAMES[199]@, NAMES[200]@, 14));
    assert(parts_at(NAMES[200]@, NAMES[201]@, 16));
    assert(parts_at(NAMES[201]@, NAMES[202]@, 8));
    assert(parts_at(NAMES[202]@, NAMES[203]@, 3));
    assert(parts_at(NAMES[203]@, NAMES[204]@, 3));
    assert(parts_at(NAMES[204]@, NAMES[205]@, 20));
    assert(parts_at(NAMES[205]@, NAMES[206]@, 19));
    assert(parts_at(NAMES[206]@, NAMES[207]@, 19));
    assert(parts_at(NAMES[207]@, NAMES[208]@, 4));
}

proof fn lemma_later_from_208(i: int)
    requires
        208 <= i < 224,
    ensures
        comes_before(NAMES[i]@, NAMES[i + 1]@),
{
    reveal_strlit("GetShaderInfoLog");
    reveal_strlit("GetShaderPrecisionFormat");
    reveal_strlit("GetShaderSource");
    reveal_strlit("GetShaderiv");
    reveal_strlit("GetString");
    reveal_strlit("GetStringi");
    reveal_strlit("GetSubroutineIndex");
    reveal_strlit("GetSubroutineUniformLocation");
    reveal_strlit("GetSynciv");
    reveal_strlit("GetTexImage");
    reveal_strlit("GetTexLevelParameterfv");
    reveal_strlit("GetTexLevelParameteriv");
    reveal_strlit("GetTexParameterIiv");
    reveal_strlit("GetTexParameterIuiv");
    reveal_strlit("GetTexParameterfv");
    reveal_strlit("GetTexParameteriv");
    reveal_strlit("GetTransformFeedbackVarying");
    assert(parts_at(NAMES[208]@, NAMES[209]@, 9));
    assert(parts_at(NAMES[209]@, NAMES[210]@, 9));
    assert(parts_at(NAMES[210]@, NAMES[211]@, 9));
    assert(parts_at(NAMES[211]@, NAMES[212]@, 4));
    assert(parts_at(NAMES[212]@, NAMES[213]@, 9));
    assert(parts_at(NAMES[213]@, NAMES[214]@, 4));
    assert(parts_at(NAMES[214]@, NAMES[215]@, 13));
    assert(parts_at(NAMES[215]@, NAMES[216]@, 4));
    assert(parts_at(NAMES[216]@, NAMES[217]@, 3));
    assert(parts_at(NAMES[217]@, NAMES[218]@, 6));
    assert(parts_at(NAMES[218]@, NAMES[219]@, 20));
    assert(parts_at(NAMES[219]@, NAMES[220]@, 6));
    assert(parts_at(NAMES[220]@, NAMES[221]@, 16));
    assert(parts_at(NAMES[221]@, NAMES[222]@, 15));
    assert(parts_at(NAMES[222]@, NAMES[223]@, 15));
    assert(parts_at(NAMES[223]@, NAMES[224]@, 4));
}

proof fn lemma_later_from_224(i: int)
    requires
        224 <= i < 240,
    ensures
        comes_before(NAMES[i]@, NAMES[i + 1]@),
{
    reveal_strlit("GetTransformFeedbackVarying");
    reveal_strlit("GetUniformBlockIndex");
    reveal_strlit("GetUniformIndices");
    reveal_strlit("GetUniformLocation");
    reveal_strlit("GetUniformSubroutineuiv");
    reveal_strlit("GetUniformdv");
    reveal_strlit("GetUniformfv");
    reveal_strlit("GetUniformiv");
    reveal_strlit("GetUniformuiv");
    reveal_strlit("GetVertexAttribIiv");
    reveal_strlit("GetVertexAttribIuiv");
    reveal_strlit("GetVertexAttribLdv");
    reveal_strlit("GetVertexAttribPointerv");
    reveal_strlit("GetVertexAttribdv");
    reveal_strlit("GetVertexAttribfv");
    reveal_strlit("GetVertexAttribiv");
    reveal_strlit("Hint");
    assert(parts_at(NAMES[224]@, NAMES[225]@, 3));
    assert(parts_at(NAMES[225]@, NAMES[226]@, 10));
    assert(parts_at(NAMES[226]@, NAMES[227]@, 10));
    assert(parts_at(NAMES[227]@, NAMES[228]@, 10));
    assert(parts_at(NAMES[228]@, NAMES[229]@, 10));
    assert(parts_at(NAMES[229]@, NAMES[230]@, 10));
    assert(parts_at(NAMES[230]@, NAMES[231]@, 10));
    assert(parts_at(NAMES[231]@, NAMES[232]@, 10));
    assert(parts_at(NAMES[232]@, NAMES[233]@, 3));
    assert(parts_at(NAMES[233]@, NAMES[234]@, 16));
    assert(parts_at(NAMES[234]@, NAMES[235]@, 15));
    assert(parts_at(NAMES[235]@, NAMES[236]@, 15));
    assert(parts_at(NAMES[236]@, NAMES[237]@, 15));
    assert(parts_at(NAMES[237]@, NAMES[238]@, 15));
    assert(parts_at(NAMES[238]@, NAMES[239]@, 15));
    assert(parts_at(NAMES[239]@, NAMES[240]@, 0));
}

proof fn lemma_later_from_240(i: int)
    requires
        240 <= i < 256,
    ensures
        comes_before(NAMES[i]@, NAMES[i + 1]@),
{
    reveal_strlit("Hint");
    reveal_strlit("InvalidateBufferData");
    reveal_strlit("InvalidateBufferSubData");
    reveal_strlit("InvalidateFramebuffer");
    reveal_strlit("InvalidateSubFramebuffer");
    reveal_strlit("InvalidateTexImage");
    reveal_strlit("InvalidateTexSubImage");
    reveal_strlit("IsBuffer");
    reveal_strlit("IsEnabled");
    reveal_strlit("IsEnabledi");
    reveal_strlit("IsFramebuffer");
    reveal_strlit("IsProgram");
    reveal_strlit("IsProgramPipeline");
    reveal_strlit("IsQuery");
    reveal_strlit("IsRenderbuffer");
    reveal_strlit("IsSampler");
    reveal_strlit("IsShader");
    assert(parts_at(NAMES[240]@, NAMES[241]@, 0));
    assert(parts_at(NAMES[241]@, NAMES[242]@, 16));
    assert(parts_at(NAMES[242]@, NAMES[243]@, 10));
    assert(parts_at(NAMES[243]@, NAMES[244]@, 10));
    assert(parts_at(NAMES[244]@, NAMES[245]@, 10));
    assert(parts_at(NAMES[245]@, NAMES[246]@, 13));
    assert(parts_at(NAMES[246]@, NAMES[247]@, 1));
    assert(parts_at(NAMES[247]@, NAMES[248]@, 2));
    assert(parts_at(NAMES[248]@, NAMES[249]@, 9));
    assert(parts_at(NAMES[249]@, NAMES[250]@, 2));
    assert(parts_at(NAMES[250]@, NAMES[251]@, 2));
    assert(parts_at(NAMES[251]@, NAMES[252]@, 9));
    assert(parts_at(NAMES[252]@, NAMES[253]@, 2));
    assert(parts_at(NAMES[253]@, NAMES[254]@, 2));
    assert(parts_at(NAMES[254]@, NAMES[255]@, 2));
    assert(parts_at(NAMES[255]@, NAMES[256]@, 3));
}

proof fn lemma_later_from_256(i: int)
    requires
        256 <= i < 272,
    ensures
        comes_before(NAMES[i]@, NAMES[i + 1]@),
{
    reveal_strlit("IsShader");
    reveal_strlit("IsSync");
    reveal_strlit("IsTexture");
    reveal_strlit("IsTransformFeedback");
    reveal_strlit("IsVertexArray");
    reveal_strlit("LineWidth");
    reveal_strlit("LinkProgram");
    reveal_strlit("LogicOp");
    reveal_strlit("MapBuffer");
    reveal_strlit("MapBufferRange");
    reveal_strlit("MemoryBarrier");
    reveal_strlit("MinSampleShading");
    reveal_strlit("MultiDrawArrays");
    reveal_strlit("MultiDrawArraysIndirect");
    reveal_strlit("MultiDrawElements");
    reveal_strlit("MultiDrawElementsBaseVertex");
    reveal_strlit("MultiDrawElementsIndirect");
    assert(parts_at(NAMES[256]@, NAMES[257]@, 3));
    assert(parts_at(NAMES[257]@, NAMES[258]@, 2));
    assert(parts_at(NAMES[258]@, NAMES[259]@, 3));
    assert(parts_at(NAMES[259]@, NAMES[260]@, 2));
    assert(parts_at(NAMES[260]@, NAMES[261]@, 0));
    assert(parts_at(NAMES[261]@, NAMES[262]@, 3));
    assert(parts_at(NAMES[262]@, NAMES[263]@, 1));
    assert(parts_at(NAMES[263]@, NAMES[264]@, 0));
    assert(parts_at(NAMES[264]@, NAMES[265]@, 9));
    assert(parts_at(NAMES[265]@, NAMES[266]@, 1));
    assert(parts_at(NAMES[266]@, NAMES[267]@, 1));
    assert(parts_at(NAMES[267]@, NAMES[268]@, 1));
    assert(parts_at(NAMES[268]@, NAMES[269]@, 15));
    assert(parts_at(NAMES[269]@, NAMES[270]@, 9));
    assert(parts_at(NAMES[270]@, NAMES[271]@, 17));
    assert(parts_at(NAMES[271]@, NAMES[272]@, 17));
}

proof fn lemma_later_from_272(i: int)
    requires
        272 <= i < 288,
    ensures
        comes_before(NAMES[i]@, NAMES[i + 1]@),
{
    reveal_strlit("MultiDrawElementsIndirect");
    reveal_strlit("MultiTexCoordP1ui");
    reveal_strlit("MultiTexCoordP1uiv");
    reveal_strlit("MultiTexCoordP2ui");
    reveal_strlit("MultiTexCoordP2uiv");
    reveal_strlit("MultiTexCoordP3ui");
    reveal_strlit("MultiTexCoordP3uiv");
    reveal_strlit("MultiTexCoordP4ui");
    reveal_strlit("MultiTexCoordP4uiv");
    reveal_strlit("NormalP3ui");
    reveal_strlit("NormalP3uiv");
    reveal_strlit("ObjectLabel");
    reveal_strlit("ObjectPtrLabel");
    reveal_strlit("PatchParameterfv");
    reveal_strlit("PatchParameteri");
    reveal_strlit("PauseTransformFeedback");
    reveal_strlit("PixelStoref");
    assert(parts_at(NAMES[272]@, NAMES[273]@, 5));
    assert(parts_at(NAMES[273]@, NAMES[274]@, 17));
    assert(parts_at(NAMES[274]@, NAMES[275]@, 14));
    assert(parts_at(NAMES[275]@, NAMES[276]@, 17));
    assert(parts_at(NAMES[276]@, NAMES[277]@, 14));
    assert(parts_at(NAMES[277]@, NAMES[278]@, 17));
    assert(parts_at(NAMES[278]@, NAMES[279]@, 14));
    assert(parts_at(NAMES[279]@, NAMES[280]@, 17));
    assert(parts_at(NAMES[280]@, NAMES[281]@, 0));
    assert(parts_at(NAMES[281]@, NAMES[282]@, 10));
    assert(parts_at(NAMES[282]@, NAMES[283]@, 0));
    assert(parts_at(NAMES[283]@, NAMES[284]@, 6));
    assert(parts_at(NAMES[284]@, NAMES[285]@, 0));
    assert(parts_at(NAMES[285]@, NAMES[286]@, 14));
    assert(parts_at(NAMES[286]@, NAMES[287]@, 2));
    assert(parts_at(NAMES[287]@, NAMES[288]@, 1));
}

proof fn lemma_later_from_288(i: int)
    requires
        288 <= i < 304,
    ensures
        comes_before(NAMES[i]@, NAMES[i + 1]@),
{
    reveal_strlit("PixelStoref");
    reveal_strlit("PixelStorei");
    reveal_strlit("PointParameterf");
    reveal_strlit("PointParameterfv");
    reveal_strlit("PointParameteri");
    reveal_strlit("PointParameteriv");
    reveal_strlit("PointSize");
    reveal_strlit("PolygonMode");
    reveal_strlit("PolygonOffset");
    reveal_strlit("PopDebugGroup");
    reveal_strlit("PrimitiveRestartIndex");
    reveal_strlit("ProgramBinary");
    reveal_strlit("ProgramParameteri");
    reveal_strlit("ProgramUniform1d");
    reveal_strlit("ProgramUniform1dv");
    reveal_strlit("ProgramUniform1f");
    reveal_strlit("ProgramUniform1fv");
    assert(parts_at(NAMES[288]@, NAMES[289]@, 10));
    assert(parts_at(NAMES[289]@, NAMES[290]@, 1));
    assert(parts_at(NAMES[290]@, NAMES[291]@, 15));
    assert(parts_at(NAMES[291]@, NAMES[292]@, 14));
    assert(parts_at(NAMES[292]@, NAMES[293]@, 15));
    assert(parts_at(NAMES[293]@, NAMES[294]@, 5));
    assert(parts_at(NAMES[294]@, NAMES[295]@, 2));
    assert(parts_at(NAMES[295]@, NAMES[296]@, 7));
    assert(parts_at(NAMES[296]@, NAMES[297]@, 2));
    assert(parts_at(NAMES[297]@, NAMES[298]@, 1));
    assert(parts_at(NAMES[298]@, NAMES[299]@, 2));
    assert(parts_at(NAMES[299]@, NAMES[300]@, 7));
    assert(parts_at(NAMES[300]@, NAMES[301]@, 7));
    assert(parts_at(NAMES[301]@, NAMES[302]@, 16));
    assert(parts_at(NAMES[302]@, NAMES[303]@, 15));
    assert(parts_at(NAMES[303]@, NAMES[304]@, 16));
}

proof fn lemma_later_from_304(i: int)
    requires
        304 <= i < 320,
    ensures
        comes_before(NAMES[i]@, NAMES[i + 1]@),
{
    reveal_strlit("ProgramUniform1fv");
    reveal_strlit("ProgramUniform1i");
    reveal_strlit("ProgramUniform1iv");
    reveal_strlit("ProgramUniform1ui");
    reveal_strlit("ProgramUniform1uiv");
    reveal_strlit("ProgramUniform2d");
    reveal_strlit("ProgramUniform2dv");
    reveal_strlit("ProgramUniform2f");
    reveal_strlit("ProgramUniform2fv");
    reveal_strlit("ProgramUniform2i");
    reveal_strlit("ProgramUniform2iv");
    reveal_strlit("ProgramUniform2ui");
    reveal_strlit("ProgramUniform2uiv");
    reveal_strlit("ProgramUniform3d");
    reveal_strlit("ProgramUniform3dv");
    reveal_strlit("ProgramUniform3f");
    reveal_strlit("ProgramUniform3fv");
    assert(parts_at(NAMES[304]@, NAMES[305]@, 15));
    assert(parts_at(NAMES[305]@, NAMES[306]@, 16));
    assert(parts_at(NAMES[306]@, NAMES[307]@, 15));
    assert(parts_at(NAMES[307]@, NAMES[308]@, 17));
    assert(parts_at(NAMES[308]@, NAMES[309]@, 14));
    assert(parts_at(NAMES[309]@, NAMES[310]@, 16));
    assert(parts_at(NAMES[310]@, NAMES[311]@, 15));
    assert(parts_at(NAMES[311]@, NAMES[312]@, 16));
    assert(parts_at(NAMES[312]@, NAMES[313]@, 15));
    assert(parts_at(NAMES[313]@, NAMES[314]@, 16));
    assert(parts_at(NAMES[314]@, NAMES[315]@, 15));
    assert(parts_at(NAMES[315]@, NAMES[316]@, 17));
    assert(parts_at(NAMES[316]@, NAMES[317]@, 14));
    assert(parts_at(NAMES[317]@, NAMES[318]@, 16));
    assert(parts_at(NAMES[318]@, NAMES[319]@, 15));
    assert(parts_at(NAMES[319]@, NAMES[320]@, 16));
}

proof fn lemma_later_from_320(i: int)
    requires
        320 <= i < 336,
    ensures
        comes_before(NAMES[i]@, NAMES[i + 1]@),
{
    reveal_strlit("ProgramUniform3fv");
    reveal_strlit("ProgramUniform3i");
    reveal_strlit("ProgramUniform3iv");
    reveal_strlit("ProgramUniform3ui");
    reveal_strlit("ProgramUniform3uiv");
    reveal_strlit("ProgramUniform4d");
    reveal_strlit("ProgramUniform4dv");
    reveal_strlit("ProgramUniform4f");
    reveal_strlit("ProgramUniform4fv");
    reveal_strlit("ProgramUniform4i");
    reveal_strlit("ProgramUniform4iv");
    reveal_strlit("ProgramUniform4ui");
    reveal_strlit("ProgramUniform4uiv");
    reveal_strlit("ProgramUniformMatrix2dv");
    reveal_strlit("ProgramUniformMatrix2fv");
    reveal_strlit("ProgramUniformMatrix2x3dv");
    reveal_strlit("ProgramUniformMatrix2x3fv");
    assert(parts_at(NAMES[320]@, NAMES[321]@, 15));
    assert(parts_at(NAMES[321]@, NAMES[322]@, 16));
    assert(parts_at(NAMES[322]@, NAMES[323]@, 15));
    assert(parts_at(NAMES[323]@, NAMES[324]@, 17));
    assert(parts_at(NAMES[324]@, NAMES[325]@, 14));
    assert(parts_at(NAMES[325]@, NAMES[326]@, 16));
    assert(parts_at(NAMES[326]@, NAMES[327]@, 15));
    assert(parts_at(NAMES[327]@, NAMES[328]@, 16));
    assert(parts_at(NAMES[328]@, NAMES[329]@, 15));
    assert(parts_at(NAMES[329]@, NAMES[330]@, 16));
    assert(parts_at(NAMES[330]@, NAMES[331]@, 15));
    assert(parts_at(NAMES[331]@, NAMES[332]@, 17));
    assert(parts_at(NAMES[332]@, NAMES[333]@, 14));
    assert(parts_at(NAMES[333]@, NAMES[334]@, 21));
    assert(parts_at(NAMES[334]@, NAMES[335]@, 21));
    assert(parts_at(NAMES[335]@, NAMES[336]@, 23));
}

proof fn lemma_later_from_336(i: int)
    requires
        336 <= i < 352,
    ensures
        comes_before(NAMES[i]@, NAMES[i + 1]@),
{
    reveal_strlit("ProgramUniformMatrix2x3fv");
    reveal_strlit("ProgramUniformMatrix2x4dv");
    reveal_strlit("ProgramUniformMatrix2x4fv");
    reveal_strlit("ProgramUniformMatrix3dv");
    reveal_strlit("ProgramUniformMatrix3fv");
    reveal_strlit("ProgramUniformMatrix3x2dv");
    reveal_strlit("ProgramUniformMatrix3x2fv");
    reveal_strlit("ProgramUniformMatrix3x4dv");
    reveal_strlit("ProgramUniformMatrix3x4fv");
    reveal_strlit("ProgramUniformMatrix4dv");
    reveal_strlit("ProgramUniformMatrix4fv");
    reveal_strlit("ProgramUniformMatrix4x2dv");
    reveal_strlit("ProgramUniformMatrix4x2fv");
    reveal_strlit("ProgramUniformMatrix4x3dv");
    reveal_strlit("ProgramUniformMatrix4x3fv");
    reveal_strlit("ProvokingVertex");
    reveal_strlit("PushDebugGroup");
    assert(parts_at(NAMES[336]@, NAMES[337]@, 22));
    assert(parts_at(NAMES[337]@, NAMES[338]@, 23));
    assert(parts_at(NAMES[338]@, NAMES[339]@, 20));
    assert(parts_at(NAMES[339]@, NAMES[340]@, 21));
    assert(parts_at(NAMES[340]@, NAMES[341]@, 21));
    assert(parts_at(NAMES[341]@, NAMES[342]@, 23));
    assert(parts_at(NAMES[342]@, NAMES[343]@, 22));
    assert(parts_at(NAMES[343]@, NAMES[344]@, 23));
    assert(parts_at(NAMES[344]@, NAMES[345]@, 20));
    assert(parts_at(NAMES[345]@, NAMES[346]@, 21));
    assert(parts_at(NAMES[346]@, NAMES[347]@, 21));
    assert(parts_at(NAMES[347]@, NAMES[348]@, 23));
    assert(parts_at(NAMES[348]@, NAMES[349]@, 22));
    assert(parts_at(NAMES[349]@, NAMES[350]@, 23));
    assert(parts_at(NAMES[350]@, NAMES[351]@, 3));
    assert(parts_at(NAMES[351]@, NAMES[352]@, 1));
}

proof fn lemma_later_from_352(i: int)
    requires
        352 <= i < 368,
    ensures
        comes_before(NAMES[i]@, NAMES[i + 1]@),
{
    reveal_strlit("PushDebugGroup");
    reveal_strlit("QueryCounter");
    reveal_strlit("ReadBuffer");
    reveal_strlit("ReadPixels");
    reveal_strlit("ReleaseShaderCompiler");
    reveal_strlit("RenderbufferStorage");
    reveal_strlit("RenderbufferStorageMultisample");
    reveal_strlit("ResumeTransformFeedback");
    reveal_strlit("SampleCoverage");
    reveal_strlit("SampleMaski");
    reveal_strlit("SamplerParameterIiv");
    reveal_strlit("SamplerParameterIuiv");
    reveal_strlit("SamplerParameterf");
    reveal_strlit("SamplerParameterfv");
    reveal_strlit("SamplerParameteri");
    reveal_strlit("SamplerParameteriv");
    reveal_strlit("Scissor");
    assert(parts_at(NAMES[352]@, NAMES[353]@, 0));
    assert(parts_at(NAMES[353]@, NAMES[354]@, 0));
    assert(parts_at(NAMES[354]@, NAMES[355]@, 4));
    assert(parts_at(NAMES[355]@, NAMES[356]@, 2));
    assert(parts_at(NAMES[356]@, NAMES[357]@, 2));
    assert(parts_at(NAMES[357]@, NAMES[358]@, 19));
    assert(parts_at(NAMES[358]@, NAMES[359]@, 2));
    assert(parts_at(NAMES[359]@, NAMES[360]@, 0));
    assert(parts_at(NAMES[360]@, NAMES[361]@, 6));
    assert(parts_at(NAMES[361]@, NAMES[362]@, 6));
    assert(parts_at(NAMES[362]@, NAMES[363]@, 17));
    assert(parts_at(NAMES[363]@, NAMES[364]@, 16));
    assert(parts_at(NAMES[364]@, NAMES[365]@, 17));
    assert(parts_at(NAMES[365]@, NAMES[366]@, 16));
    assert(parts_at(NAMES[366]@, NAMES[367]@, 17));
    assert(parts_at(NAMES[367]@, NAMES[368]@, 1));
}

proof fn lemma_later_from_368(i: int)
    requires
        368 <= i < 384,
    ensures
        comes_before(NAMES[i]@, NAMES[i + 1]@),
{
    reveal_strlit("Scissor");
    reveal_strlit("ScissorArrayv");
    reveal_strlit("ScissorIndexed");
    reveal_strlit("ScissorIndexedv");
    reveal_strlit("SecondaryColorP3ui");
    reveal_strlit("SecondaryColorP3uiv");
    reveal_strlit("ShaderBinary");
    reveal_strlit("ShaderSource");
    reveal_strlit("ShaderStorageBlockBinding");
    reveal_strlit("StencilFunc");
    reveal_strlit("StencilFuncSeparate");
    reveal_strlit("StencilMask");
    reveal_strlit("StencilMaskSeparate");
    reveal_strlit("StencilOp");
    reveal_strlit("StencilOpSeparate");
    reveal_strlit("TexBuffer");
    reveal_strlit("TexBufferRange");
    assert(parts_at(NAMES[368]@, NAMES[369]@, 7));
    assert(parts_at(NAMES[369]@, NAMES[370]@, 7));
    assert(parts_at(NAMES[370]@, NAMES[371]@, 14));
    assert(parts_at(NAMES[371]@, NAMES[372]@, 1));
    assert(parts_at(NAMES[372]@, NAMES[373]@, 18));
    assert(parts_at(NAMES[373]@, NAMES[374]@, 1));
    assert(parts_at(NAMES[374]@, NAMES[375]@, 6));
    assert(parts_at(NAMES[375]@, NAMES[376]@, 7));
    assert(parts_at(NAMES[376]@, NAMES[377]@, 1));
    assert(parts_at(NAMES[377]@, NAMES[378]@, 11));
    assert(parts_at(NAMES[378]@, NAMES[379]@, 7));
    assert(parts_at(NAMES[379]@, NAMES[380]@, 11));
    assert(parts_at(NAMES[380]@, NAMES[381]@, 7));
    assert(parts_at(NAMES[381]@, NAMES[382]@, 9));
    assert(parts_at(NAMES[382]@, NAMES[383]@, 0));
    assert(parts_at(NAMES[383]@, NAMES[384]@, 9));
}

proof fn lemma_later_from_384(i: int)
    requires
        384 <= i < 400,
    ensures
        comes_before(NAMES[i]@, NAMES[i + 1]@),
{
    reveal_strlit("TexBufferRange");
    reveal_strlit("TexCoordP1ui");
    reveal_strlit("TexCoordP1uiv");
    reveal_strlit("TexCoordP2ui");
    reveal_strlit("TexCoordP2uiv");
    reveal_strlit("TexCoordP3ui");
    reveal_strlit("TexCoordP3uiv");
    reveal_strlit("TexCoordP4ui");
    reveal_strlit("TexCoordP4uiv");
    reveal_strlit("TexImage1D");
    reveal_strlit("TexImage2D");
    reveal_strlit("TexImage2DMultisample");
    reveal_strlit("TexImage3D");
    reveal_strlit("TexImage3DMultisample");
    reveal_strlit("TexParameterIiv");
    reveal_strlit("TexParameterIuiv");
    reveal_strlit("TexParameterf");
    assert(parts_at(NAMES[384]@, NAMES[385]@, 3));
    assert(parts_at(NAMES[385]@, NAMES[386]@, 12));
    assert(parts_at(NAMES[386]@, NAMES[387]@, 9));
    assert(parts_at(NAMES[387]@, NAMES[388]@, 12));
    assert(parts_at(NAMES[388]@, NAMES[389]@, 9));
    assert(parts_at(NAMES[389]@, NAMES[390]@, 12));
    assert(parts_at(NAMES[390]@, NAMES[391]@, 9));
    assert(parts_at(NAMES[391]@, NAMES[392]@, 12));
    assert(parts_at(NAMES[392]@, NAMES[393]@, 3));
    assert(parts_at(NAMES[393]@, NAMES[394]@, 8));
    assert(parts_at(NAMES[394]@, NAMES[395]@, 10));
    assert(parts_at(NAMES[395]@, NAMES[396]@, 8));
    assert(parts_at(NAMES[396]@, NAMES[397]@, 10));
    assert(parts_at(NAMES[397]@, NAMES[398]@, 3));
    assert(parts_at(NAMES[398]@, NAMES[399]@, 13));
    assert(parts_at(NAMES[399]@, NAMES[400]@, 12));
}

proof fn lemma_later_from_400(i: int)
    requires
        400 <= i < 416,
    ensures
        comes_before(NAMES[i]@, NAMES[i + 1]@),
{
    reveal_strlit("TexParameterf");
    reveal_strlit("TexParameterfv");
    reveal_strlit("TexParameteri");
    reveal_strlit("TexParameteriv");
    reveal_strlit("TexStorage1D");
    reveal_strlit("TexStorage2D");
    reveal_strlit("TexStorage2DMultisample");
    reveal_strlit("TexStorage3D");
    reveal_strlit("TexStorage3DMultisample");
    reveal_strlit("TexSubImage1D");
    reveal_strlit("TexSubImage2D");
    reveal_strlit("TexSubImage3D");
    reveal_strlit("TextureView");
    reveal_strlit("TransformFeedbackVaryings");
    reveal_strlit("Uniform1d");
    reveal_strlit("Uniform1dv");
    reveal_strlit("Uniform1f");
    assert(parts_at(NAMES[400]@, NAMES[401]@, 13));
    assert(parts_at(NAMES[401]@, NAMES[402]@, 12));
    assert(parts_at(NAMES[402]@, NAMES[403]@, 13));
    assert(parts_at(NAMES[403]@, NAMES[404]@, 3));
    assert(parts_at(NAMES[404]@, NAMES[405]@, 10));
    assert(parts_at(NAMES[405]@, NAMES[406]@, 12));
    assert(parts_at(NAMES[406]@, NAMES[407]@, 10));
    assert(parts_at(NAMES[407]@, NAMES[408]@, 12));
    assert(parts_at(NAMES[408]@, NAMES[409]@, 4));
    assert(parts_at(NAMES[409]@, NAMES[410]@, 11));
    assert(parts_at(NAMES[410]@, NAMES[411]@, 11));
    assert(parts_at(NAMES[411]@, NAMES[412]@, 3));
    assert(parts_at(NAMES[412]@, NAMES[413]@, 1));
    assert(parts_at(NAMES[413]@, NAMES[414]@, 0));
    assert(parts_at(NAMES[414]@, NAMES[415]@, 9));
    assert(parts_at(NAMES[415]@, NAMES[416]@, 8));
}

proof fn lemma_later_from_416(i: int)
    requires
        416 <= i < 432,
    ensures
        comes_before(NAMES[i]@, NAMES[i + 1]@),
{
    reveal_strlit("Uniform1f");
    reveal_strlit("Uniform1fv");
    reveal_strlit("Uniform1i");
    reveal_strlit("Uniform1iv");
    reveal_strlit("Uniform1ui");
    reveal_strlit("Uniform1uiv");
    reveal_strlit("Uniform2d");
    reveal_strlit("Uniform2dv");
    reveal_strlit("Uniform2f");
    reveal_strlit("Uniform2fv");
    reveal_strlit("Uniform2i");
    reveal_strlit("Uniform2iv");
    reveal_strlit("Uniform2ui");
    reveal_strlit("Uniform2uiv");
    reveal_strlit("Uniform3d");
    reveal_strlit("Uniform3dv");
    reveal_strlit("Uniform3f");
    assert(parts_at(NAMES[416]@, NAMES[417]@, 9));
    assert(parts_at(NAMES[417]@, NAMES[418]@, 8));
    assert(parts_at(NAMES[418]@, NAMES[419]@, 9));
    assert(parts_at(NAMES[419]@, NAMES[420]@, 8));
    assert(parts_at(NAMES[420]@, NAMES[421]@, 10));
    assert(parts_at(NAMES[421]@, NAMES[422]@, 7));
    assert(parts_at(NAMES[422]@, NAMES[423]@, 9));
    assert(parts_at(NAMES[423]@, NAMES[424]@, 8));
    assert(parts_at(NAMES[424]@, NAMES[425]@, 9));
    assert(parts_at(NAMES[425]@, NAMES[426]@, 8));
    assert(parts_at(NAMES[426]@, NAMES[427]@, 9));
    assert(parts_at(NAMES[427]@, NAMES[428]@, 8));
    assert(parts_at(NAMES[428]@, NAMES[429]@, 10));
    assert(parts_at(NAMES[429]@, NAMES[430]@, 7));
    assert(parts_at(NAMES[430]@, NAMES[431]@, 9));
    assert(parts_at(NAMES[431]@, NAMES[432]@, 8));
}

proof fn lemma_later_from_432(i: int)
    requires
        432 <= i < 448,
    ensures
        comes_before(NAMES[i]@, NAMES[i + 1]@),
{
    reveal_strlit("Uniform3f");
    reveal_strlit("Uniform3fv");
    reveal_strlit("Uniform3i");
    reveal_strlit("Uniform3iv");
    reveal_strlit("Uniform3ui");
    reveal_strlit("Uniform3uiv");
    reveal_strlit("Uniform4d");
    reveal_strlit("Uniform4dv");
    reveal_strlit("Uniform4f");
    reveal_strlit("Uniform4fv");
    reveal_strlit("Uniform4i");
    reveal_strlit("Uniform4iv");
    reveal_strlit("Uniform4ui");
    reveal_strlit("Uniform4uiv");
    reveal_strlit("UniformBlockBinding");
    reveal_strlit("UniformMatrix2dv");
    reveal_strlit("UniformMatrix2fv");
    assert(parts_at(NAMES[432]@, NAMES[433]@, 9));
    assert(parts_at(NAMES[433]@, NAMES[434]@, 8));
    assert(parts_at(NAMES[434]@, NAMES[435]@, 9));
    assert(parts_at(NAMES[435]@, NAMES[436]@, 8));
    assert(parts_at(NAMES[436]@, NAMES[437]@, 10));
    assert(parts_at(NAMES[437]@, NAMES[438]@, 7));
    assert(parts_at(NAMES[438]@, NAMES[439]@, 9));
    assert(parts_at(NAMES[439]@, NAMES[440]@, 8));
    assert(parts_at(NAMES[440]@, NAMES[441]@, 9));
    assert(parts_at(NAMES[441]@, NAMES[442]@, 8));
    assert(parts_at(NAMES[442]@, NAMES[443]@, 9));
    assert(parts_at(NAMES[443]@, NAMES[444]@, 8));
    assert(parts_at(NAMES[444]@, NAMES[445]@, 10));
    assert(parts_at(NAMES[445]@, NAMES[446]@, 7));
    assert(parts_at(NAMES[446]@, NAMES[447]@, 7));
    assert(parts_at(NAMES[447]@, NAMES[448]@, 14));
}

proof fn lemma_later_from_448(i: int)
    requires
        448 <= i < 464,
    ensures
        comes_before(NAMES[i]@, NAMES[i + 1]@),
{
    reveal_strlit("UniformMatrix2fv");
    reveal_strlit("UniformMatrix2x3dv");
    reveal_strlit("UniformMatrix2x3fv");
    reveal_strlit("UniformMatrix2x4dv");
    reveal_strlit("UniformMatrix2x4fv");
    reveal_strlit("UniformMatrix3dv");
    reveal_strlit("UniformMatrix3fv");
    reveal_strlit("UniformMatrix3x2dv");
    reveal_strlit("UniformMatrix3x2fv");
    reveal_strlit("UniformMatrix3x4dv");
    reveal_strlit("UniformMatrix3x4fv");
    reveal_strlit("UniformMatrix4dv");
    reveal_strlit("UniformMatrix4fv");
    reveal_strlit("UniformMatrix4x2dv");
    reveal_strlit("UniformMatrix4x2fv");
    reveal_strlit("UniformMatrix4x3dv");
    reveal_strlit("UniformMatrix4x3fv");
    assert(parts_at(NAMES[448]@, NAMES[449]@, 14));
    assert(parts_at(NAMES[449]@, NAMES[450]@, 16));
    assert(parts_at(NAMES[450]@, NAMES[451]@, 15));
    assert(parts_at(NAMES[451]@, NAMES[452]@, 16));
    assert(parts_at(NAMES[452]@, NAMES[453]@, 13));
    assert(parts_at(NAMES[453]@, NAMES[454]@, 14));
    assert(parts_at(NAMES[454]@, NAMES[455]@, 14));
    assert(parts_at(NAMES[455]@, NAMES[456]@, 16));
    assert(parts_at(NAMES[456]@, NAMES[457]@, 15));
    assert(parts_at(NAMES[457]@, NAMES[458]@, 16));
    assert(parts_at(NAMES[458]@, NAMES[459]@, 13));
    assert(parts_at(NAMES[459]@, NAMES[460]@, 14));
    assert(parts_at(NAMES[460]@, NAMES[461]@, 14));
    assert(parts_at(NAMES[461]@, NAMES[462]@, 16));
    assert(parts_at(NAMES[462]@, NAMES[463]@, 15));
    assert(parts_at(NAMES[463]@, NAMES[464]@, 16));
}

proof fn lemma_later_from_464(i: int)
    requires
        464 <= i < 480,
    ensures
        comes_before(NAMES[i]@, NAMES[i + 1]@),
{
    reveal_strlit("UniformMatrix4x3fv");
    reveal_strlit("UniformSubroutinesuiv");
    reveal_strlit("UnmapBuffer");
    reveal_strlit("UseProgram");
    reveal_strlit("UseProgramStages");
    reveal_strlit("ValidateProgram");
    reveal_strlit("ValidateProgramPipeline");
    reveal_strlit("VertexAttrib1d");
    reveal_strlit("VertexAttrib1dv");
    reveal_strlit("VertexAttrib1f");
    reveal_strlit("VertexAttrib1fv");
    reveal_strlit("VertexAttrib1s");
    reveal_strlit("VertexAttrib1sv");
    reveal_strlit("VertexAttrib2d");
    reveal_strlit("VertexAttrib2dv");
    reveal_strlit("VertexAttrib2f");
    reveal_strlit("VertexAttrib2fv");
    assert(parts_at(NAMES[464]@, NAMES[465]@, 7));
    assert(parts_at(NAMES[465]@, NAMES[466]@, 2));
    assert(parts_at(NAMES[466]@, NAMES[467]@, 1));
    assert(parts_at(NAMES[467]@, NAMES[468]@, 10));
    assert(parts_at(NAMES[468]@, NAMES[469]@, 0));
    assert(parts_at(NAMES[469]@, NAMES[470]@, 15));
    assert(parts_at(NAMES[470]@, NAMES[471]@, 1));
    assert(parts_at(NAMES[471]@, NAMES[472]@, 14));
    assert(parts_at(NAMES[472]@, NAMES[473]@, 13));
    assert(parts_at(NAMES[473]@, NAMES[474]@, 14));
    assert(parts_at(NAMES[474]@, NAMES[475]@, 13));
    assert(parts_at(NAMES[475]@, NAMES[476]@, 14));
    assert(parts_at(NAMES[476]@, NAMES[477]@, 12));
    assert(parts_at(NAMES[477]@, NAMES[478]@, 14));
    assert(parts_at(NAMES[478]@, NAMES[479]@, 13));
    assert(parts_at(NAMES[479]@, NAMES[480]@, 14));
}

proof fn lemma_later_from_480(i: int)
    requires
        480 <= i < 496,
    ensures
        comes_before(NAMES[i]@, NAMES[i + 1]@),
{
    reveal_strlit("VertexAttrib2fv");
    reveal_strlit("VertexAttrib2s");
    reveal_strlit("VertexAttrib2sv");
    reveal_strlit("VertexAttrib3d");
    reveal_strlit("VertexAttrib3dv");
    reveal_strlit("VertexAttrib3f");
    reveal_strlit("VertexAttrib3fv");
    reveal_strlit("VertexAttrib3s");
    reveal_strlit("VertexAttrib3sv");
    reveal_strlit("VertexAttrib4Nbv");
    reveal_strlit("VertexAttrib4Niv");
    reveal_strlit("VertexAttrib4Nsv");
    reveal_strlit("VertexAttrib4Nub");
    reveal_strlit("VertexAttrib4Nubv");
    reveal_strlit("VertexAttrib4Nuiv");
    reveal_strlit("VertexAttrib4Nusv");
    reveal_strlit("VertexAttrib4bv");
    assert(parts_at(NAMES[480]@, NAMES[481]@, 13));
    assert(parts_at(NAMES[481]@, NAMES[482]@, 14));
    assert(parts_at(NAMES[482]@, NAMES[483]@, 12));
    assert(parts_at(NAMES[483]@, NAMES[484]@, 14));
    assert(parts_at(NAMES[484]@, NAMES[485]@, 13));
    assert(parts_at(NAMES[485]@, NAMES[486]@, 14));
    assert(parts_at(NAMES[486]@, NAMES[487]@, 13));
    assert(parts_at(NAMES[487]@, NAMES[488]@, 14));
    assert(parts_at(NAMES[488]@, NAMES[489]@, 12));
    assert(parts_at(NAMES[489]@, NAMES[490]@, 14));
    assert(parts_at(NAMES[490]@, NAMES[491]@, 14));
    assert(parts_at(NAMES[491]@, NAMES[492]@, 14));
    assert(parts_at(NAMES[492]@, NAMES[493]@, 16));
    assert(parts_at(NAMES[493]@, NAMES[494]@, 15));
    assert(parts_at(NAMES[494]@, NAMES[495]@, 15));
    assert(parts_at(NAMES[495]@, NAMES[496]@, 13));
}

proof fn lemma_later_from_496(i: int)
    requires
        496 <= i < 512,
    ensures
        comes_before(NAMES[i]@, NAMES[i + 1]@),
{
    reveal_strlit("VertexAttrib4bv");
    reveal_strlit("VertexAttrib4d");
    reveal_strlit("VertexAttrib4dv");
    reveal_strlit("VertexAttrib4f");
    reveal_strlit("VertexAttrib4fv");
    reveal_strlit("VertexAttrib4iv");
    reveal_strlit("VertexAttrib4s");
    reveal_strlit("VertexAttrib4sv");
    reveal_strlit("VertexAttrib4ubv");
    reveal_strlit("VertexAttrib4uiv");
    reveal_strlit("VertexAttrib4usv");
    reveal_strlit("VertexAttribBinding");
    reveal_strlit("VertexAttribDivisor");
    reveal_strlit("VertexAttribFormat");
    reveal_strlit("VertexAttribI1i");
    reveal_strlit("VertexAttribI1iv");
    reveal_strlit("VertexAttribI1ui");
    assert(parts_at(NAMES[496]@, NAMES[497]@, 13));
    assert(parts_at(NAMES[497]@, NAMES[498]@, 14));
    assert(parts_at(NAMES[498]@, NAMES[499]@, 13));
    assert(parts_at(NAMES[499]@, NAMES[500]@, 14));
    assert(parts_at(NAMES[500]@, NAMES[501]@, 13));
    assert(parts_at(NAMES[501]@, NAMES[502]@, 13));
    assert(parts_at(NAMES[502]@, NAMES[503]@, 14));
    assert(parts_at(NAMES[503]@, NAMES[504]@, 13));
    assert(parts_at(NAMES[504]@, NAMES[505]@, 14));
    assert(parts_at(NAMES[505]@, NAMES[506]@, 14));
    assert(parts_at(NAMES[506]@, NAMES[507]@, 12));
    assert(parts_at(NAMES[507]@, NAMES[508]@, 12));
    assert(parts_at(NAMES[508]@, NAMES[509]@, 12));
    assert(parts_at(NAMES[509]@, NAMES[510]@, 12));
    assert(parts_at(NAMES[510]@, NAMES[511]@, 15));
    assert(parts_at(NAMES[511]@, NAMES[512]@, 14));
}

proof fn lemma_later_from_512(i: int)
    requires
        512 <= i < 528,
    ensures
        comes_before(NAMES[i]@, NAMES[i + 1]@),
{
    reveal_strlit("VertexAttribI1ui");
    reveal_strlit("VertexAttribI1uiv");
    reveal_strlit("VertexAttribI2i");
    reveal_strlit("VertexAttribI2iv");
    reveal_strlit("VertexAttribI2ui");
    reveal_strlit("VertexAttribI2uiv");
    reveal_strlit("VertexAttribI3i");
    reveal_strlit("VertexAttribI3iv");
    reveal_strlit("VertexAttribI3ui");
    reveal_strlit("VertexAttribI3uiv");
    reveal_strlit("VertexAttribI4bv");
    reveal_strlit("VertexAttribI4i");
    reveal_strlit("VertexAttribI4iv");
    reveal_strlit("VertexAttribI4sv");
    reveal_strlit("VertexAttribI4ubv");
    reveal_strlit("VertexAttribI4ui");
    reveal_strlit("VertexAttribI4uiv");
    assert(parts_at(NAMES[512]@, NAMES[513]@, 16));
    assert(parts_at(NAMES[513]@, NAMES[514]@, 13));
    assert(parts_at(NAMES[514]@, NAMES[515]@, 15));
    assert(parts_at(NAMES[515]@, NAMES[516]@, 14));
    assert(parts_at(NAMES[516]@, NAMES[517]@, 16));
    assert(parts_at(NAMES[517]@, NAMES[518]@, 13));
    assert(parts_at(NAMES[518]@, NAMES[519]@, 15));
    assert(parts_at(NAMES[519]@, NAMES[520]@, 14));
    assert(parts_at(NAMES[520]@, NAMES[521]@, 16));
    assert(parts_at(NAMES[521]@, NAMES[522]@, 13));
    assert(parts_at(NAMES[522]@, NAMES[523]@, 14));
    assert(parts_at(NAMES[523]@, NAMES[524]@, 15));
    assert(parts_at(NAMES[524]@, NAMES[525]@, 14));
    assert(parts_at(NAMES[525]@, NAMES[526]@, 14));
    assert(parts_at(NAMES[526]@, NAMES[527]@, 15));
    assert(parts_at(NAMES[527]@, NAMES[528]@, 16));
}

proof fn lemma_later_from_528(i: int)
    requires
        528 <= i < 544,
    ensures
        comes_before(NAMES[i]@, NAMES[i + 1]@),
{
    reveal_strlit("VertexAttribI4uiv");
    reveal_strlit("VertexAttribI4usv");
    reveal_strlit("VertexAttribIFormat");
    reveal_strlit("VertexAttribIPointer");
    reveal_strlit("VertexAttribL1d");
    reveal_strlit("VertexAttribL1dv");
    reveal_strlit("VertexAttribL2d");
    reveal_strlit("VertexAttribL2dv");
    reveal_strlit("VertexAttribL3d");
    reveal_strlit("VertexAttribL3dv");
    reveal_strlit("VertexAttribL4d");
    reveal_strlit("VertexAttribL4dv");
    reveal_strlit("VertexAttribLFormat");
    reveal_strlit("VertexAttribLPointer");
    reveal_strlit("VertexAttribP1ui");
    reveal_strlit("VertexAttribP1uiv");
    reveal_strlit("VertexAttribP2ui");
    assert(parts_at(NAMES[528]@, NAMES[529]@, 15));
    assert(parts_at(NAMES[529]@, NAMES[530]@, 13));
    assert(parts_at(NAMES[530]@, NAMES[531]@, 13));
    assert(parts_at(NAMES[531]@, NAMES[532]@, 12));
    assert(parts_at(NAMES[532]@, NAMES[533]@, 15));
    assert(parts_at(NAMES[533]@, NAMES[534]@, 13));
    assert(parts_at(NAMES[534]@, NAMES[535]@, 15));
    assert(parts_at(NAMES[535]@, NAMES[536]@, 13));
    assert(parts_at(NAMES[536]@, NAMES[537]@, 15));
    assert(parts_at(NAMES[537]@, NAMES[538]@, 13));
    assert(parts_at(NAMES[538]@, NAMES[539]@, 15));
    assert(parts_at(NAMES[539]@, NAMES[540]@, 13));
    assert(parts_at(NAMES[540]@, NAMES[541]@, 13));
    assert(parts_at(NAMES[541]@, NAMES[542]@, 12));
    assert(parts_at(NAMES[542]@, NAMES[543]@, 16));
    assert(parts_at(NAMES[543]@, NAMES[544]@, 13));
}

proof fn lemma_later_from_544(i: int)
    requires
        544 <= i < 560,
    ensures
        comes_before(NAMES[i]@, NAMES[i + 1]@),
{
    reveal_strlit("VertexAttribP2ui");
    reveal_strlit("VertexAttribP2uiv");
    reveal_strlit("VertexAttribP3ui");
    reveal_strlit("VertexAttribP3uiv");
    reveal_strlit("VertexAttribP4ui");
    reveal_strlit("VertexAttribP4uiv");
    reveal_strlit("VertexAttribPointer");
    reveal_strlit("VertexBindingDivisor");
    reveal_strlit("VertexP2ui");
    reveal_strlit("VertexP2uiv");
    reveal_strlit("VertexP3ui");
    reveal_strlit("VertexP3uiv");
    reveal_strlit("VertexP4ui");
    reveal_strlit("VertexP4uiv");
    reveal_strlit("Viewport");
    reveal_strlit("ViewportArrayv");
    reveal_strlit("ViewportIndexedf");
    assert(parts_at(NAMES[544]@, NAMES[545]@, 16));
    assert(parts_at(NAMES[545]@, NAMES[546]@, 13));
    assert(parts_at(NAMES[546]@, NAMES[547]@, 16));
    assert(parts_at(NAMES[547]@, NAMES[548]@, 13));
    assert(parts_at(NAMES[548]@, NAMES[549]@, 16));
    assert(parts_at(NAMES[549]@, NAMES[550]@, 13));
    assert(parts_at(NAMES[550]@, NAMES[551]@, 6));
    assert(parts_at(NAMES[551]@, NAMES[552]@, 6));
    assert(parts_at(NAMES[552]@, NAMES[553]@, 10));
    assert(parts_at(NAMES[553]@, NAMES[554]@, 7));
    assert(parts_at(NAMES[554]@, NAMES[555]@, 10));
    assert(parts_at(NAMES[555]@, NAMES[556]@, 7));
    assert(parts_at(NAMES[556]@, NAMES[557]@, 10));
    assert(parts_at(NAMES[557]@, NAMES[558]@, 1));
    assert(parts_at(NAMES[558]@, NAMES[559]@, 8));
    assert(parts_at(NAMES[559]@, NAMES[560]@, 8));
}

proof fn lemma_later_from_560(i: int)
    requires
        560 <= i < 562,
    ensures
        comes_before(NAMES[i]@, NAMES[i + 1]@),
{
    reveal_strlit("ViewportIndexedf");
    reveal_strlit("ViewportIndexedfv");
    reveal_strlit("WaitSync");
    assert(parts_at(NAMES[560]@, NAMES[561]@, 16));
    assert(parts_at(NAMES[561]@, NAMES[562]@, 0));
}

} // verus!
