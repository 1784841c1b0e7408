//! The entry points that the registry knows, and their numbering.

use vstd::prelude::*;

verus! {

/// How many entry points there are.
pub const ENTRY_POINT_COUNT: usize = 563;

/// One native OpenGL function, identified without its `gl` prefix.
#[allow(non_camel_case_types)]
#[derive(Clone, Copy, Debug, PartialEq, Eq, Hash, Structural)]
pub enum EntryPoint {
    ActiveShaderProgram,
    ActiveTexture,
    AttachShader,
    BeginConditionalRender,
    BeginQuery,
    BeginQueryIndexed,
    BeginTransformFeedback,
    BindAttribLocation,
    BindBuffer,
    BindBufferBase,
    BindBufferRange,
    BindFragDataLocation,
    BindFragDataLocationIndexed,
    BindFramebuffer,
    BindImageTexture,
    BindProgramPipeline,
    BindRenderbuffer,
    BindSampler,
    BindTexture,
    BindTransformFeedback,
    BindVertexArray,
    BindVertexBuffer,
    BlendColor,
    BlendEquation,
    BlendEquationSeparate,
    BlendEquationSeparatei,
    BlendEquationi,
    BlendFunc,
    BlendFuncSeparate,
    BlendFuncSeparatei,
    BlendFunci,
    BlitFramebuffer,
    BufferData,
    BufferSubData,
    CheckFramebufferStatus,
    ClampColor,
    Clear,
    ClearBufferData,
    ClearBufferSubData,
    ClearBufferfi,
    ClearBufferfv,
    ClearBufferiv,
    ClearBufferuiv,
    ClearColor,
    ClearDepth,
    ClearDepthf,
    ClearStencil,
    ClientWaitSync,
    ColorMask,
    ColorMaski,
    ColorP3ui,
    ColorP3uiv,
    ColorP4ui,
    ColorP4uiv,
    CompileShader,
    CompressedTexImage1D,
    CompressedTexImage2D,
    CompressedTexImage3D,
    CompressedTexSubImage1D,
    CompressedTexSubImage2D,
    CompressedTexSubImage3D,
    CopyBufferSubData,
    CopyImageSubData,
    CopyTexImage1D,
    CopyTexImage2D,
    CopyTexSubImage1D,
    CopyTexSubImage2D,
    CopyTexSubImage3D,
    CreateProgram,
    CreateShader,
    CreateShaderProgramv,
    CullFace,
    DebugMessageCallback,
    DebugMessageControl,
    DebugMessageInsert,
    DeleteBuffers,
    DeleteFramebuffers,
    DeleteProgram,
    DeleteProgramPipelines,
    DeleteQueries,
    DeleteRenderbuffers,
    DeleteSamplers,
    DeleteShader,
    DeleteSync,
    DeleteTextures,
    DeleteTransformFeedbacks,
    DeleteVertexArrays,
    DepthFunc,
    DepthMask,
    DepthRange,
    DepthRangeArrayv,
    DepthRangeIndexed,
    DepthRangef,
    DetachShader,
    Disable,
    DisableVertexAttribArray,
    Disablei,
    DispatchCompute,
    DispatchComputeIndirect,
    DrawArrays,
    DrawArraysIndirect,
    DrawArraysInstanced,
    DrawArraysInstancedBaseInstance,
    DrawBuffer,
    DrawBuffers,
    DrawElements,
    DrawElementsBaseVertex,
    DrawElementsIndirect,
    DrawElementsInstanced,
    DrawElementsInstancedBaseInstance,
    DrawElementsInstancedBaseVertex,
    DrawElementsInstancedBaseVertexBaseInstance,
    DrawRangeElements,
    DrawRangeElementsBaseVertex,
    DrawTransformFeedback,
    DrawTransformFeedbackInstanced,
    DrawTransformFeedbackStream,
    DrawTransformFeedbackStreamInstanced,
    Enable,
    EnableVertexAttribArray,
    Enablei,
    EndConditionalRender,
    EndQuery,
    EndQueryIndexed,
    EndTransformFeedback,
    FenceSync,
    Finish,
    Flush,
    FlushMappedBufferRange,
    FramebufferParameteri,
    FramebufferRenderbuffer,
    FramebufferTexture,
    FramebufferTexture1D,
    FramebufferTexture2D,
    FramebufferTexture3D,
    FramebufferTextureLayer,
    FrontFace,
    GenBuffers,
    GenFramebuffers,
    GenProgramPipelines,
    GenQueries,
    GenRenderbuffers,
    GenSamplers,
    GenTextures,
    GenTransformFeedbacks,
    GenVertexArrays,
    GenerateMipmap,
    GetActiveAtomicCounterBufferiv,
    GetActiveAttrib,
    GetActiveSubroutineName,
    GetActiveSubroutineUniformName,
    GetActiveSubroutineUniformiv,
    GetActiveUniform,
    GetActiveUniformBlockName,
    GetActiveUniformBlockiv,
    GetActiveUniformName,
    GetActiveUniformsiv,
    GetAttachedShaders,
    GetAttribLocation,
    GetBooleani_v,
    GetBooleanv,
    GetBufferParameteri64v,
    GetBufferParameteriv,
    GetBufferPointerv,
    GetBufferSubData,
    GetCompressedTexImage,
    GetDebugMessageLog,
    GetDoublei_v,
    GetDoublev,
    GetError,
    GetFloati_v,
    GetFloatv,
    GetFragDataIndex,
    GetFragDataLocation,
    GetFramebufferAttachmentParameteriv,
    GetFramebufferParameteriv,
    GetInteger64i_v,
    GetInteger64v,
    GetIntegeri_v,
    GetIntegerv,
    GetInternalformati64v,
    GetInternalformativ,
    GetMultisamplefv,
    GetObjectLabel,
    GetObjectPtrLabel,
    GetProgramBinary,
    GetProgramInfoLog,
    GetProgramInterfaceiv,
    GetProgramPipelineInfoLog,
    GetProgramPipelineiv,
    GetProgramResourceIndex,
    GetProgramResourceLocation,
    GetProgramResourceLocationIndex,
    GetProgramResourceName,
    GetProgramResourceiv,
    GetProgramStageiv,
    GetProgramiv,
    GetQueryIndexediv,
    GetQueryObjecti64v,
    GetQueryObjectiv,
    GetQueryObjectui64v,
    GetQueryObjectuiv,
    GetQueryiv,
    GetRenderbufferParameteriv,
    GetSamplerParameterIiv,
    GetSamplerParameterIuiv,
    GetSamplerParameterfv,
    GetSamplerParameteriv,
    GetShaderInfoLog,
    GetShaderPrecisionFormat,
    GetShaderSource,
    GetShaderiv,
    GetString,
    GetStringi,
    GetSubroutineIndex,
    GetSubroutineUniformLocation,
    GetSynciv,
    GetTexImage,
    GetTexLevelParameterfv,
    GetTexLevelParameteriv,
    GetTexParameterIiv,
    GetTexParameterIuiv,
    GetTexParameterfv,
    GetTexParameteriv,
    GetTransformFeedbackVarying,
    GetUniformBlockIndex,
    GetUniformIndices,
    GetUniformLocation,
    GetUniformSubroutineuiv,
    GetUniformdv,
    GetUniformfv,
    GetUniformiv,
    GetUniformuiv,
    GetVertexAttribIiv,
    GetVertexAttribIuiv,
    GetVertexAttribLdv,
    GetVertexAttribPointerv,
    GetVertexAttribdv,
    GetVertexAttribfv,
    GetVertexAttribiv,
    Hint,
    InvalidateBufferData,
    InvalidateBufferSubData,
    InvalidateFramebuffer,
    InvalidateSubFramebuffer,
    InvalidateTexImage,
    InvalidateTexSubImage,
    IsBuffer,
    IsEnabled,
    IsEnabledi,
    IsFramebuffer,
    IsProgram,
    IsProgramPipeline,
    IsQuery,
    IsRenderbuffer,
    IsSampler,
    IsShader,
    IsSync,
    IsTexture,
    IsTransformFeedback,
    IsVertexArray,
    LineWidth,
    LinkProgram,
    LogicOp,
    MapBuffer,
    MapBufferRange,
    MemoryBarrier,
    MinSampleShading,
    MultiDrawArrays,
    MultiDrawArraysIndirect,
    MultiDrawElements,
    MultiDrawElementsBaseVertex,
    MultiDrawElementsIndirect,
    MultiTexCoordP1ui,
    MultiTexCoordP1uiv,
    MultiTexCoordP2ui,
    MultiTexCoordP2uiv,
    MultiTexCoordP3ui,
    MultiTexCoordP3uiv,
    MultiTexCoordP4ui,
    MultiTexCoordP4uiv,
    NormalP3ui,
    NormalP3uiv,
    ObjectLabel,
    ObjectPtrLabel,
    PatchParameterfv,
    PatchParameteri,
    PauseTransformFeedback,
    PixelStoref,
    PixelStorei,
    PointParameterf,
    PointParameterfv,
    PointParameteri,
    PointParameteriv,
    PointSize,
    PolygonMode,
    PolygonOffset,
    PopDebugGroup,
    PrimitiveRestartIndex,
    ProgramBinary,
    ProgramParameteri,
    ProgramUniform1d,
    ProgramUniform1dv,
    ProgramUniform1f,
    ProgramUniform1fv,
    ProgramUniform1i,
    ProgramUniform1iv,
    ProgramUniform1ui,
    ProgramUniform1uiv,
    ProgramUniform2d,
    ProgramUniform2dv,
    ProgramUniform2f,
    ProgramUniform2fv,
    ProgramUniform2i,
    ProgramUniform2iv,
    ProgramUniform2ui,
    ProgramUniform2uiv,
    ProgramUniform3d,
    ProgramUniform3dv,
    ProgramUniform3f,
    ProgramUniform3fv,
    ProgramUniform3i,
    ProgramUniform3iv,
    ProgramUniform3ui,
    ProgramUniform3uiv,
    ProgramUniform4d,
    ProgramUniform4dv,
    ProgramUniform4f,
    ProgramUniform4fv,
    ProgramUniform4i,
    ProgramUniform4iv,
    ProgramUniform4ui,
    ProgramUniform4uiv,
    ProgramUniformMatrix2dv,
    ProgramUniformMatrix2fv,
    ProgramUniformMatrix2x3dv,
    ProgramUniformMatrix2x3fv,
    ProgramUniformMatrix2x4dv,
    ProgramUniformMatrix2x4fv,
    ProgramUniformMatrix3dv,
    ProgramUniformMatrix3fv,
    ProgramUniformMatrix3x2dv,
    ProgramUniformMatrix3x2fv,
    ProgramUniformMatrix3x4dv,
    ProgramUniformMatrix3x4fv,
    ProgramUniformMatrix4dv,
    ProgramUniformMatrix4fv,
    ProgramUniformMatrix4x2dv,
    ProgramUniformMatrix4x2fv,
    ProgramUniformMatrix4x3dv,
    ProgramUniformMatrix4x3fv,
    ProvokingVertex,
    PushDebugGroup,
    QueryCounter,
    ReadBuffer,
    ReadPixels,
    ReleaseShaderCompiler,
    RenderbufferStorage,
    RenderbufferStorageMultisample,
    ResumeTransformFeedback,
    SampleCoverage,
    SampleMaski,
    SamplerParameterIiv,
    SamplerParameterIuiv,
    SamplerParameterf,
    SamplerParameterfv,
    SamplerParameteri,
    SamplerParameteriv,
    Scissor,
    ScissorArrayv,
    ScissorIndexed,
    ScissorIndexedv,
    SecondaryColorP3ui,
    SecondaryColorP3uiv,
    ShaderBinary,
    ShaderSource,
    ShaderStorageBlockBinding,
    StencilFunc,
    StencilFuncSeparate,
    StencilMask,
    StencilMaskSeparate,
    StencilOp,
    StencilOpSeparate,
    TexBuffer,
    TexBufferRange,
    TexCoordP1ui,
    TexCoordP1uiv,
    TexCoordP2ui,
    TexCoordP2uiv,
    TexCoordP3ui,
    TexCoordP3uiv,
    TexCoordP4ui,
    TexCoordP4uiv,
    TexImage1D,
    TexImage2D,
    TexImage2DMultisample,
    TexImage3D,
    TexImage3DMultisample,
    TexParameterIiv,
    TexParameterIuiv,
    TexParameterf,
    TexParameterfv,
    TexParameteri,
    TexParameteriv,
    TexStorage1D,
    TexStorage2D,
    TexStorage2DMultisample,
    TexStorage3D,
    TexStorage3DMultisample,
    TexSubImage1D,
    TexSubImage2D,
    TexSubImage3D,
    TextureView,
    TransformFeedbackVaryings,
    Uniform1d,
    Uniform1dv,
    Uniform1f,
    Uniform1fv,
    Uniform1i,
    Uniform1iv,
    Uniform1ui,
    Uniform1uiv,
    Uniform2d,
    Uniform2dv,
    Uniform2f,
    Uniform2fv,
    Uniform2i,
    Uniform2iv,
    Uniform2ui,
    Uniform2uiv,
    Uniform3d,
    Uniform3dv,
    Uniform3f,
    Uniform3fv,
    Uniform3i,
    Uniform3iv,
    Uniform3ui,
    Uniform3uiv,
    Uniform4d,
    Uniform4dv,
    Uniform4f,
    Uniform4fv,
    Uniform4i,
    Uniform4iv,
    Uniform4ui,
    Uniform4uiv,
    UniformBlockBinding,
    UniformMatrix2dv,
    UniformMatrix2fv,
    UniformMatrix2x3dv,
    UniformMatrix2x3fv,
    UniformMatrix2x4dv,
    UniformMatrix2x4fv,
    UniformMatrix3dv,
    UniformMatrix3fv,
    UniformMatrix3x2dv,
    UniformMatrix3x2fv,
    UniformMatrix3x4dv,
    UniformMatrix3x4fv,
    UniformMatrix4dv,
    UniformMatrix4fv,
    UniformMatrix4x2dv,
    UniformMatrix4x2fv,
    UniformMatrix4x3dv,
    UniformMatrix4x3fv,
    UniformSubroutinesuiv,
    UnmapBuffer,
    UseProgram,
    UseProgramStages,
    ValidateProgram,
    ValidateProgramPipeline,
    VertexAttrib1d,
    VertexAttrib1dv,
    VertexAttrib1f,
    VertexAttrib1fv,
    VertexAttrib1s,
    VertexAttrib1sv,
    VertexAttrib2d,
    VertexAttrib2dv,
    VertexAttrib2f,
    VertexAttrib2fv,
    VertexAttrib2s,
    VertexAttrib2sv,
    VertexAttrib3d,
    VertexAttrib3dv,
    VertexAttrib3f,
    VertexAttrib3fv,
    VertexAttrib3s,
    VertexAttrib3sv,
    VertexAttrib4Nbv,
    VertexAttrib4Niv,
    VertexAttrib4Nsv,
    VertexAttrib4Nub,
    VertexAttrib4Nubv,
    VertexAttrib4Nuiv,
    VertexAttrib4Nusv,
    VertexAttrib4bv,
    VertexAttrib4d,
    VertexAttrib4dv,
    VertexAttrib4f,
    VertexAttrib4fv,
    VertexAttrib4iv,
    VertexAttrib4s,
    VertexAttrib4sv,
    VertexAttrib4ubv,
    VertexAttrib4uiv,
    VertexAttrib4usv,
    VertexAttribBinding,
    VertexAttribDivisor,
    VertexAttribFormat,
    VertexAttribI1i,
    VertexAttribI1iv,
    VertexAttribI1ui,
    VertexAttribI1uiv,
    VertexAttribI2i,
    VertexAttribI2iv,
    VertexAttribI2ui,
    VertexAttribI2uiv,
    VertexAttribI3i,
    VertexAttribI3iv,
    VertexAttribI3ui,
    VertexAttribI3uiv,
    VertexAttribI4bv,
    VertexAttribI4i,
    VertexAttribI4iv,
    VertexAttribI4sv,
    VertexAttribI4ubv,
    VertexAttribI4ui,
    VertexAttribI4uiv,
    VertexAttribI4usv,
    VertexAttribIFormat,
    VertexAttribIPointer,
    VertexAttribL1d,
    VertexAttribL1dv,
    VertexAttribL2d,
    VertexAttribL2dv,
    VertexAttribL3d,
    VertexAttribL3dv,
    VertexAttribL4d,
    VertexAttribL4dv,
    VertexAttribLFormat,
    VertexAttribLPointer,
    VertexAttribP1ui,
    VertexAttribP1uiv,
    VertexAttribP2ui,
    VertexAttribP2uiv,
    VertexAttribP3ui,
    VertexAttribP3uiv,
    VertexAttribP4ui,
    VertexAttribP4uiv,
    VertexAttribPointer,
    VertexBindingDivisor,
    VertexP2ui,
    VertexP2uiv,
    VertexP3ui,
    VertexP3uiv,
    VertexP4ui,
    VertexP4uiv,
    Viewport,
    ViewportArrayv,
    ViewportIndexedf,
    ViewportIndexedfv,
    WaitSync,
}

/// Every entry point, each at its own position.
pub const ENTRY_POINTS: [EntryPoint; 563] = [
    EntryPoint::ActiveShaderProgram,
    EntryPoint::ActiveTexture,
    EntryPoint::AttachShader,
    EntryPoint::BeginConditionalRender,
    EntryPoint::BeginQuery,
    EntryPoint::BeginQueryIndexed,
    EntryPoint::BeginTransformFeedback,
    EntryPoint::BindAttribLocation,
    EntryPoint::BindBuffer,
    EntryPoint::BindBufferBase,
    EntryPoint::BindBufferRange,
    EntryPoint::BindFragDataLocation,
    EntryPoint::BindFragDataLocationIndexed,
    EntryPoint::BindFramebuffer,
    EntryPoint::BindImageTexture,
    EntryPoint::BindProgramPipeline,
    EntryPoint::BindRenderbuffer,
    EntryPoint::BindSampler,
    EntryPoint::BindTexture,
    EntryPoint::BindTransformFeedback,
    EntryPoint::BindVertexArray,
    EntryPoint::BindVertexBuffer,
    EntryPoint::BlendColor,
    EntryPoint::BlendEquation,
    EntryPoint::BlendEquationSeparate,
    EntryPoint::BlendEquationSeparatei,
    EntryPoint::BlendEquationi,
    EntryPoint::BlendFunc,
    EntryPoint::BlendFuncSeparate,
    EntryPoint::BlendFuncSeparatei,
    EntryPoint::BlendFunci,
    EntryPoint::BlitFramebuffer,
    EntryPoint::BufferData,
    EntryPoint::BufferSubData,
    EntryPoint::CheckFramebufferStatus,
    EntryPoint::ClampColor,
    EntryPoint::Clear,
    EntryPoint::ClearBufferData,
    EntryPoint::ClearBufferSubData,
    EntryPoint::ClearBufferfi,
    EntryPoint::ClearBufferfv,
    EntryPoint::ClearBufferiv,
    EntryPoint::ClearBufferuiv,
    EntryPoint::ClearColor,
    EntryPoint::ClearDepth,
    EntryPoint::ClearDepthf,
    EntryPoint::ClearStencil,
    EntryPoint::ClientWaitSync,
    EntryPoint::ColorMask,
    EntryPoint::ColorMaski,
    EntryPoint::ColorP3ui,
    EntryPoint::ColorP3uiv,
    EntryPoint::ColorP4ui,
    EntryPoint::ColorP4uiv,
    EntryPoint::CompileShader,
    EntryPoint::CompressedTexImage1D,
    EntryPoint::CompressedTexImage2D,
    EntryPoint::CompressedTexImage3D,
    EntryPoint::CompressedTexSubImage1D,
    EntryPoint::CompressedTexSubImage2D,
    EntryPoint::CompressedTexSubImage3D,
    EntryPoint::CopyBufferSubData,
    EntryPoint::CopyImageSubData,
    EntryPoint::CopyTexImage1D,
    EntryPoint::CopyTexImage2D,
    EntryPoint::CopyTexSubImage1D,
    EntryPoint::CopyTexSubImage2D,
    EntryPoint::CopyTexSubImage3D,
    EntryPoint::CreateProgram,
    EntryPoint::CreateShader,
    EntryPoint::CreateShaderProgramv,
    EntryPoint::CullFace,
    EntryPoint::DebugMessageCallback,
    EntryPoint::DebugMessageControl,
    EntryPoint::DebugMessageInsert,
    EntryPoint::DeleteBuffers,
    EntryPoint::DeleteFramebuffers,
    EntryPoint::DeleteProgram,
    EntryPoint::DeleteProgramPipelines,
    EntryPoint::DeleteQueries,
    EntryPoint::DeleteRenderbuffers,
    EntryPoint::DeleteSamplers,
    EntryPoint::DeleteShader,
    EntryPoint::DeleteSync,
    EntryPoint::DeleteTextures,
    EntryPoint::DeleteTransformFeedbacks,
    EntryPoint::DeleteVertexArrays,
    EntryPoint::DepthFunc,
    EntryPoint::DepthMask,
    EntryPoint::DepthRange,
    EntryPoint::DepthRangeArrayv,
    EntryPoint::DepthRangeIndexed,
    EntryPoint::DepthRangef,
    EntryPoint::DetachShader,
    EntryPoint::Disable,
    EntryPoint::DisableVertexAttribArray,
    EntryPoint::Disablei,
    EntryPoint::DispatchCompute,
    EntryPoint::DispatchComputeIndirect,
    EntryPoint::DrawArrays,
    EntryPoint::DrawArraysIndirect,
    EntryPoint::DrawArraysInstanced,
    EntryPoint::DrawArraysInstancedBaseInstance,
    EntryPoint::DrawBuffer,
    EntryPoint::DrawBuffers,
    EntryPoint::DrawElements,
    EntryPoint::DrawElementsBaseVertex,
    EntryPoint::DrawElementsIndirect,
    EntryPoint::DrawElementsInstanced,
    EntryPoint::DrawElementsInstancedBaseInstance,
    EntryPoint::DrawElementsInstancedBaseVertex,
    EntryPoint::DrawElementsInstancedBaseVertexBaseInstance,
    EntryPoint::DrawRangeElements,
    EntryPoint::DrawRangeElementsBaseVertex,
    EntryPoint::DrawTransformFeedback,
    EntryPoint::DrawTransformFeedbackInstanced,
    EntryPoint::DrawTransformFeedbackStream,
    EntryPoint::DrawTransformFeedbackStreamInstanced,
    EntryPoint::Enable,
    EntryPoint::EnableVertexAttribArray,
    EntryPoint::Enablei,
    EntryPoint::EndConditionalRender,
    EntryPoint::EndQuery,
    EntryPoint::EndQueryIndexed,
    EntryPoint::EndTransformFeedback,
    EntryPoint::FenceSync,
    EntryPoint::Finish,
    EntryPoint::Flush,
    EntryPoint::FlushMappedBufferRange,
    EntryPoint::FramebufferParameteri,
    EntryPoint::FramebufferRenderbuffer,
    EntryPoint::FramebufferTexture,
    EntryPoint::FramebufferTexture1D,
    EntryPoint::FramebufferTexture2D,
    EntryPoint::FramebufferTexture3D,
    EntryPoint::FramebufferTextureLayer,
    EntryPoint::FrontFace,
    EntryPoint::GenBuffers,
    EntryPoint::GenFramebuffers,
    EntryPoint::GenProgramPipelines,
    EntryPoint::GenQueries,
    EntryPoint::GenRenderbuffers,
    EntryPoint::GenSamplers,
    EntryPoint::GenTextures,
    EntryPoint::GenTransformFeedbacks,
    EntryPoint::GenVertexArrays,
    EntryPoint::GenerateMipmap,
    EntryPoint::GetActiveAtomicCounterBufferiv,
    EntryPoint::GetActiveAttrib,
    EntryPoint::GetActiveSubroutineName,
    EntryPoint::GetActiveSubroutineUniformName,
    EntryPoint::GetActiveSubroutineUniformiv,
    EntryPoint::GetActiveUniform,
    EntryPoint::GetActiveUniformBlockName,
    EntryPoint::GetActiveUniformBlockiv,
    EntryPoint::GetActiveUniformName,
    EntryPoint::GetActiveUniformsiv,
    EntryPoint::GetAttachedShaders,
    EntryPoint::GetAttribLocation,
    EntryPoint::GetBooleani_v,
    EntryPoint::GetBooleanv,
    EntryPoint::GetBufferParameteri64v,
    EntryPoint::GetBufferParameteriv,
    EntryPoint::GetBufferPointerv,
    EntryPoint::GetBufferSubData,
    EntryPoint::GetCompressedTexImage,
    EntryPoint::GetDebugMessageLog,
    EntryPoint::GetDoublei_v,
    EntryPoint::GetDoublev,
    EntryPoint::GetError,
    EntryPoint::GetFloati_v,
    EntryPoint::GetFloatv,
    EntryPoint::GetFragDataIndex,
    EntryPoint::GetFragDataLocation,
    EntryPoint::GetFramebufferAttachmentParameteriv,
    EntryPoint::GetFramebufferParameteriv,
    EntryPoint::GetInteger64i_v,
    EntryPoint::GetInteger64v,
    EntryPoint::GetIntegeri_v,
    EntryPoint::GetIntegerv,
    EntryPoint::GetInternalformati64v,
    EntryPoint::GetInternalformativ,
    EntryPoint::GetMultisamplefv,
    EntryPoint::GetObjectLabel,
    EntryPoint::GetObjectPtrLabel,
    EntryPoint::GetProgramBinary,
    EntryPoint::GetProgramInfoLog,
    EntryPoint::GetProgramInterfaceiv,
    EntryPoint::GetProgramPipelineInfoLog,
    EntryPoint::GetProgramPipelineiv,
    EntryPoint::GetProgramResourceIndex,
    EntryPoint::GetProgramResourceLocation,
    EntryPoint::GetProgramResourceLocationIndex,
    EntryPoint::GetProgramResourceName,
    EntryPoint::GetProgramResourceiv,
    EntryPoint::GetProgramStageiv,
    EntryPoint::GetProgramiv,
    EntryPoint::GetQueryIndexediv,
    EntryPoint::GetQueryObjecti64v,
    EntryPoint::GetQueryObjectiv,
    EntryPoint::GetQueryObjectui64v,
    EntryPoint::GetQueryObjectuiv,
    EntryPoint::GetQueryiv,
    EntryPoint::GetRenderbufferParameteriv,
    EntryPoint::GetSamplerParameterIiv,
    EntryPoint::GetSamplerParameterIuiv,
    EntryPoint::GetSamplerParameterfv,
    EntryPoint::GetSamplerParameteriv,
    EntryPoint::GetShaderInfoLog,
    EntryPoint::GetShaderPrecisionFormat,
    EntryPoint::GetShaderSource,
    EntryPoint::GetShaderiv,
    EntryPoint::GetString,
    EntryPoint::GetStringi,
    EntryPoint::GetSubroutineIndex,
    EntryPoint::GetSubroutineUniformLocation,
    EntryPoint::GetSynciv,
    EntryPoint::GetTexImage,
    EntryPoint::GetTexLevelParameterfv,
    EntryPoint::GetTexLevelParameteriv,
    EntryPoint::GetTexParameterIiv,
    EntryPoint::GetTexParameterIuiv,
    EntryPoint::GetTexParameterfv,
    EntryPoint::GetTexParameteriv,
    EntryPoint::GetTransformFeedbackVarying,
    EntryPoint::GetUniformBlockIndex,
    EntryPoint::GetUniformIndices,
    EntryPoint::GetUniformLocation,
    EntryPoint::GetUniformSubroutineuiv,
    EntryPoint::GetUniformdv,
    EntryPoint::GetUniformfv,
    EntryPoint::GetUniformiv,
    EntryPoint::GetUniformuiv,
    EntryPoint::GetVertexAttribIiv,
    EntryPoint::GetVertexAttribIuiv,
    EntryPoint::GetVertexAttribLdv,
    EntryPoint::GetVertexAttribPointerv,
    EntryPoint::GetVertexAttribdv,
    EntryPoint::GetVertexAttribfv,
    EntryPoint::GetVertexAttribiv,
    EntryPoint::Hint,
    EntryPoint::InvalidateBufferData,
    EntryPoint::InvalidateBufferSubData,
    EntryPoint::InvalidateFramebuffer,
    EntryPoint::InvalidateSubFramebuffer,
    EntryPoint::InvalidateTexImage,
    EntryPoint::InvalidateTexSubImage,
    EntryPoint::IsBuffer,
    EntryPoint::IsEnabled,
    EntryPoint::IsEnabledi,
    EntryPoint::IsFramebuffer,
    EntryPoint::IsProgram,
    EntryPoint::IsProgramPipeline,
    EntryPoint::IsQuery,
    EntryPoint::IsRenderbuffer,
    EntryPoint::IsSampler,
    EntryPoint::IsShader,
    EntryPoint::IsSync,
    EntryPoint::IsTexture,
    EntryPoint::IsTransformFeedback,
    EntryPoint::IsVertexArray,
    EntryPoint::LineWidth,
    EntryPoint::LinkProgram,
    EntryPoint::LogicOp,
    EntryPoint::MapBuffer,
    EntryPoint::MapBufferRange,
    EntryPoint::MemoryBarrier,
    EntryPoint::MinSampleShading,
    EntryPoint::MultiDrawArrays,
    EntryPoint::MultiDrawArraysIndirect,
    EntryPoint::MultiDrawElements,
    EntryPoint::MultiDrawElementsBaseVertex,
    EntryPoint::MultiDrawElementsIndirect,
    EntryPoint::MultiTexCoordP1ui,
    EntryPoint::MultiTexCoordP1uiv,
    EntryPoint::MultiTexCoordP2ui,
    EntryPoint::MultiTexCoordP2uiv,
    EntryPoint::MultiTexCoordP3ui,
    EntryPoint::MultiTexCoordP3uiv,
    EntryPoint::MultiTexCoordP4ui,
    EntryPoint::MultiTexCoordP4uiv,
    EntryPoint::NormalP3ui,
    EntryPoint::NormalP3uiv,
    EntryPoint::ObjectLabel,
    EntryPoint::ObjectPtrLabel,
    EntryPoint::PatchParameterfv,
    EntryPoint::PatchParameteri,
    EntryPoint::PauseTransformFeedback,
    EntryPoint::PixelStoref,
    EntryPoint::PixelStorei,
    EntryPoint::PointParameterf,
    EntryPoint::PointParameterfv,
    EntryPoint::PointParameteri,
    EntryPoint::PointParameteriv,
    EntryPoint::PointSize,
    EntryPoint::PolygonMode,
    EntryPoint::PolygonOffset,
    EntryPoint::PopDebugGroup,
    EntryPoint::PrimitiveRestartIndex,
    EntryPoint::ProgramBinary,
    EntryPoint::ProgramParameteri,
    EntryPoint::ProgramUniform1d,
    EntryPoint::ProgramUniform1dv,
    EntryPoint::ProgramUniform1f,
    EntryPoint::ProgramUniform1fv,
    EntryPoint::ProgramUniform1i,
    EntryPoint::ProgramUniform1iv,
    EntryPoint::ProgramUniform1ui,
    EntryPoint::ProgramUniform1uiv,
    EntryPoint::ProgramUniform2d,
    EntryPoint::ProgramUniform2dv,
    EntryPoint::ProgramUniform2f,
    EntryPoint::ProgramUniform2fv,
    EntryPoint::ProgramUniform2i,
    EntryPoint::ProgramUniform2iv,
    EntryPoint::ProgramUniform2ui,
    EntryPoint::ProgramUniform2uiv,
    EntryPoint::ProgramUniform3d,
    EntryPoint::ProgramUniform3dv,
    EntryPoint::ProgramUniform3f,
    EntryPoint::ProgramUniform3fv,
    EntryPoint::ProgramUniform3i,
    EntryPoint::ProgramUniform3iv,
    EntryPoint::ProgramUniform3ui,
    EntryPoint::ProgramUniform3uiv,
    EntryPoint::ProgramUniform4d,
    EntryPoint::ProgramUniform4dv,
    EntryPoint::ProgramUniform4f,
    EntryPoint::ProgramUniform4fv,
    EntryPoint::ProgramUniform4i,
    EntryPoint::ProgramUniform4iv,
    EntryPoint::ProgramUniform4ui,
    EntryPoint::ProgramUniform4uiv,
    EntryPoint::ProgramUniformMatrix2dv,
    EntryPoint::ProgramUniformMatrix2fv,
    EntryPoint::ProgramUniformMatrix2x3dv,
    EntryPoint::ProgramUniformMatrix2x3fv,
    EntryPoint::ProgramUniformMatrix2x4dv,
    EntryPoint::ProgramUniformMatrix2x4fv,
    EntryPoint::ProgramUniformMatrix3dv,
    EntryPoint::ProgramUniformMatrix3fv,
    EntryPoint::ProgramUniformMatrix3x2dv,
    EntryPoint::ProgramUniformMatrix3x2fv,
    EntryPoint::ProgramUniformMatrix3x4dv,
    EntryPoint::ProgramUniformMatrix3x4fv,
    EntryPoint::ProgramUniformMatrix4dv,
    EntryPoint::ProgramUniformMatrix4fv,
    EntryPoint::ProgramUniformMatrix4x2dv,
    EntryPoint::ProgramUniformMatrix4x2fv,
    EntryPoint::ProgramUniformMatrix4x3dv,
    EntryPoint::ProgramUniformMatrix4x3fv,
    EntryPoint::ProvokingVertex,
    EntryPoint::PushDebugGroup,
    EntryPoint::QueryCounter,
    EntryPoint::ReadBuffer,
    EntryPoint::ReadPixels,
    EntryPoint::ReleaseShaderCompiler,
    EntryPoint::RenderbufferStorage,
    EntryPoint::RenderbufferStorageMultisample,
    EntryPoint::ResumeTransformFeedback,
    EntryPoint::SampleCoverage,
    EntryPoint::SampleMaski,
    EntryPoint::SamplerParameterIiv,
    EntryPoint::SamplerParameterIuiv,
    EntryPoint::SamplerParameterf,
    EntryPoint::SamplerParameterfv,
    EntryPoint::SamplerParameteri,
    EntryPoint::SamplerParameteriv,
    EntryPoint::Scissor,
    EntryPoint::ScissorArrayv,
    EntryPoint::ScissorIndexed,
    EntryPoint::ScissorIndexedv,
    EntryPoint::SecondaryColorP3ui,
    EntryPoint::SecondaryColorP3uiv,
    EntryPoint::ShaderBinary,
    EntryPoint::ShaderSource,
    EntryPoint::ShaderStorageBlockBinding,
    EntryPoint::StencilFunc,
    EntryPoint::StencilFuncSeparate,
    EntryPoint::StencilMask,
    EntryPoint::StencilMaskSeparate,
    EntryPoint::StencilOp,
    EntryPoint::StencilOpSeparate,
    EntryPoint::TexBuffer,
    EntryPoint::TexBufferRange,
    EntryPoint::TexCoordP1ui,
    EntryPoint::TexCoordP1uiv,
    EntryPoint::TexCoordP2ui,
    EntryPoint::TexCoordP2uiv,
    EntryPoint::TexCoordP3ui,
    EntryPoint::TexCoordP3uiv,
    EntryPoint::TexCoordP4ui,
    EntryPoint::TexCoordP4uiv,
    EntryPoint::TexImage1D,
    EntryPoint::TexImage2D,
    EntryPoint::TexImage2DMultisample,
    EntryPoint::TexImage3D,
    EntryPoint::TexImage3DMultisample,
    EntryPoint::TexParameterIiv,
    EntryPoint::TexParameterIuiv,
    EntryPoint::TexParameterf,
    EntryPoint::TexParameterfv,
    EntryPoint::TexParameteri,
    EntryPoint::TexParameteriv,
    EntryPoint::TexStorage1D,
    EntryPoint::TexStorage2D,
    EntryPoint::TexStorage2DMultisample,
    EntryPoint::TexStorage3D,
    EntryPoint::TexStorage3DMultisample,
    EntryPoint::TexSubImage1D,
    EntryPoint::TexSubImage2D,
    EntryPoint::TexSubImage3D,
    EntryPoint::TextureView,
    EntryPoint::TransformFeedbackVaryings,
    EntryPoint::Uniform1d,
    EntryPoint::Uniform1dv,
    EntryPoint::Uniform1f,
    EntryPoint::Uniform1fv,
    EntryPoint::Uniform1i,
    EntryPoint::Uniform1iv,
    EntryPoint::Uniform1ui,
    EntryPoint::Uniform1uiv,
    EntryPoint::Uniform2d,
    EntryPoint::Uniform2dv,
    EntryPoint::Uniform2f,
    EntryPoint::Uniform2fv,
    EntryPoint::Uniform2i,
    EntryPoint::Uniform2iv,
    EntryPoint::Uniform2ui,
    EntryPoint::Uniform2uiv,
    EntryPoint::Uniform3d,
    EntryPoint::Uniform3dv,
    EntryPoint::Uniform3f,
    EntryPoint::Uniform3fv,
    EntryPoint::Uniform3i,
    EntryPoint::Uniform3iv,
    EntryPoint::Uniform3ui,
    EntryPoint::Uniform3uiv,
    EntryPoint::Uniform4d,
    EntryPoint::Uniform4dv,
    EntryPoint::Uniform4f,
    EntryPoint::Uniform4fv,
    EntryPoint::Uniform4i,
    EntryPoint::Uniform4iv,
    EntryPoint::Uniform4ui,
    EntryPoint::Uniform4uiv,
    EntryPoint::UniformBlockBinding,
    EntryPoint::UniformMatrix2dv,
    EntryPoint::UniformMatrix2fv,
    EntryPoint::UniformMatrix2x3dv,
    EntryPoint::UniformMatrix2x3fv,
    EntryPoint::UniformMatrix2x4dv,
    EntryPoint::UniformMatrix2x4fv,
    EntryPoint::UniformMatrix3dv,
    EntryPoint::UniformMatrix3fv,
    EntryPoint::UniformMatrix3x2dv,
    EntryPoint::UniformMatrix3x2fv,
    EntryPoint::UniformMatrix3x4dv,
    EntryPoint::UniformMatrix3x4fv,
    EntryPoint::UniformMatrix4dv,
    EntryPoint::UniformMatrix4fv,
    EntryPoint::UniformMatrix4x2dv,
    EntryPoint::UniformMatrix4x2fv,
    EntryPoint::UniformMatrix4x3dv,
    EntryPoint::UniformMatrix4x3fv,
    EntryPoint::UniformSubroutinesuiv,
    EntryPoint::UnmapBuffer,
    EntryPoint::UseProgram,
    EntryPoint::UseProgramStages,
    EntryPoint::ValidateProgram,
    EntryPoint::ValidateProgramPipeline,
    EntryPoint::VertexAttrib1d,
    EntryPoint::VertexAttrib1dv,
    EntryPoint::VertexAttrib1f,
    EntryPoint::VertexAttrib1fv,
    EntryPoint::VertexAttrib1s,
    EntryPoint::VertexAttrib1sv,
    EntryPoint::VertexAttrib2d,
    EntryPoint::VertexAttrib2dv,
    EntryPoint::VertexAttrib2f,
    EntryPoint::VertexAttrib2fv,
    EntryPoint::VertexAttrib2s,
    EntryPoint::VertexAttrib2sv,
    EntryPoint::VertexAttrib3d,
    EntryPoint::VertexAttrib3dv,
    EntryPoint::VertexAttrib3f,
    EntryPoint::VertexAttrib3fv,
    EntryPoint::VertexAttrib3s,
    EntryPoint::VertexAttrib3sv,
    EntryPoint::VertexAttrib4Nbv,
    EntryPoint::VertexAttrib4Niv,
    EntryPoint::VertexAttrib4Nsv,
    EntryPoint::VertexAttrib4Nub,
    EntryPoint::VertexAttrib4Nubv,
    EntryPoint::VertexAttrib4Nuiv,
    EntryPoint::VertexAttrib4Nusv,
    EntryPoint::VertexAttrib4bv,
    EntryPoint::VertexAttrib4d,
    EntryPoint::VertexAttrib4dv,
    EntryPoint::VertexAttrib4f,
    EntryPoint::VertexAttrib4fv,
    EntryPoint::VertexAttrib4iv,
    EntryPoint::VertexAttrib4s,
    EntryPoint::VertexAttrib4sv,
    EntryPoint::VertexAttrib4ubv,
    EntryPoint::VertexAttrib4uiv,
    EntryPoint::VertexAttrib4usv,
    EntryPoint::VertexAttribBinding,
    EntryPoint::VertexAttribDivisor,
    EntryPoint::VertexAttribFormat,
    EntryPoint::VertexAttribI1i,
    EntryPoint::VertexAttribI1iv,
    EntryPoint::VertexAttribI1ui,
    EntryPoint::VertexAttribI1uiv,
    EntryPoint::VertexAttribI2i,
    EntryPoint::VertexAttribI2iv,
    EntryPoint::VertexAttribI2ui,
    EntryPoint::VertexAttribI2uiv,
    EntryPoint::VertexAttribI3i,
    EntryPoint::VertexAttribI3iv,
    EntryPoint::VertexAttribI3ui,
    EntryPoint::VertexAttribI3uiv,
    EntryPoint::VertexAttribI4bv,
    EntryPoint::VertexAttribI4i,
    EntryPoint::VertexAttribI4iv,
    EntryPoint::VertexAttribI4sv,
    EntryPoint::VertexAttribI4ubv,
    EntryPoint::VertexAttribI4ui,
    EntryPoint::VertexAttribI4uiv,
    EntryPoint::VertexAttribI4usv,
    EntryPoint::VertexAttribIFormat,
    EntryPoint::VertexAttribIPointer,
    EntryPoint::VertexAttribL1d,
    EntryPoint::VertexAttribL1dv,
    EntryPoint::VertexAttribL2d,
    EntryPoint::VertexAttribL2dv,
    EntryPoint::VertexAttribL3d,
    EntryPoint::VertexAttribL3dv,
    EntryPoint::VertexAttribL4d,
    EntryPoint::VertexAttribL4dv,
    EntryPoint::VertexAttribLFormat,
    EntryPoint::VertexAttribLPointer,
    EntryPoint::VertexAttribP1ui,
    EntryPoint::VertexAttribP1uiv,
    EntryPoint::VertexAttribP2ui,
    EntryPoint::VertexAttribP2uiv,
    EntryPoint::VertexAttribP3ui,
    EntryPoint::VertexAttribP3uiv,
    EntryPoint::VertexAttribP4ui,
    EntryPoint::VertexAttribP4uiv,
    EntryPoint::VertexAttribPointer,
    EntryPoint::VertexBindingDivisor,
    EntryPoint::VertexP2ui,
    EntryPoint::VertexP2uiv,
    EntryPoint::VertexP3ui,
    EntryPoint::VertexP3uiv,
    EntryPoint::VertexP4ui,
    EntryPoint::VertexP4uiv,
    EntryPoint::Viewport,
    EntryPoint::ViewportArrayv,
    EntryPoint::ViewportIndexedf,
    EntryPoint::ViewportIndexedfv,
    EntryPoint::WaitSync,
];

impl EntryPoint {
    /// The position of this entry point in `ENTRY_POINTS`.
    pub open spec fn spec_index(self) -> int {
        match self {
            EntryPoint::ActiveShaderProgram => 0,
            EntryPoint::ActiveTexture => 1,
            EntryPoint::AttachShader => 2,
            EntryPoint::BeginConditionalRender => 3,
            EntryPoint::BeginQuery => 4,
            EntryPoint::BeginQueryIndexed => 5,
            EntryPoint::BeginTransformFeedback => 6,
            EntryPoint::BindAttribLocation => 7,
            EntryPoint::BindBuffer => 8,
            EntryPoint::BindBufferBase => 9,
            EntryPoint::BindBufferRange => 10,
            EntryPoint::BindFragDataLocation => 11,
            EntryPoint::BindFragDataLocationIndexed => 12,
            EntryPoint::BindFramebuffer => 13,
            EntryPoint::BindImageTexture => 14,
            EntryPoint::BindProgramPipeline => 15,
            EntryPoint::BindRenderbuffer => 16,
            EntryPoint::BindSampler => 17,
            EntryPoint::BindTexture => 18,
            EntryPoint::BindTransformFeedback => 19,
            EntryPoint::BindVertexArray => 20,
            EntryPoint::BindVertexBuffer => 21,
            EntryPoint::BlendColor => 22,
            EntryPoint::BlendEquation => 23,
            EntryPoint::BlendEquationSeparate => 24,
            EntryPoint::BlendEquationSeparatei => 25,
            EntryPoint::BlendEquationi => 26,
            EntryPoint::BlendFunc => 27,
            EntryPoint::BlendFuncSeparate => 28,
            EntryPoint::BlendFuncSeparatei => 29,
            EntryPoint::BlendFunci => 30,
            EntryPoint::BlitFramebuffer => 31,
            EntryPoint::BufferData => 32,
            EntryPoint::BufferSubData => 33,
            EntryPoint::CheckFramebufferStatus => 34,
            EntryPoint::ClampColor => 35,
            EntryPoint::Clear => 36,
            EntryPoint::ClearBufferData => 37,
            EntryPoint::ClearBufferSubData => 38,
            EntryPoint::ClearBufferfi => 39,
            EntryPoint::ClearBufferfv => 40,
            EntryPoint::ClearBufferiv => 41,
            EntryPoint::ClearBufferuiv => 42,
            EntryPoint::ClearColor => 43,
            EntryPoint::ClearDepth => 44,
            EntryPoint::ClearDepthf => 45,
            EntryPoint::ClearStencil => 46,
            EntryPoint::ClientWaitSync => 47,
            EntryPoint::ColorMask => 48,
            EntryPoint::ColorMaski => 49,
            EntryPoint::ColorP3ui => 50,
            EntryPoint::ColorP3uiv => 51,
            EntryPoint::ColorP4ui => 52,
            EntryPoint::ColorP4uiv => 53,
            EntryPoint::CompileShader => 54,
            EntryPoint::CompressedTexImage1D => 55,
            EntryPoint::CompressedTexImage2D => 56,
            EntryPoint::CompressedTexImage3D => 57,
            EntryPoint::CompressedTexSubImage1D => 58,
            EntryPoint::CompressedTexSubImage2D => 59,
            EntryPoint::CompressedTexSubImage3D => 60,
            EntryPoint::CopyBufferSubData => 61,
            EntryPoint::CopyImageSubData => 62,
            EntryPoint::CopyTexImage1D => 63,
            EntryPoint::CopyTexImage2D => 64,
            EntryPoint::CopyTexSubImage1D => 65,
            EntryPoint::CopyTexSubImage2D => 66,
            EntryPoint::CopyTexSubImage3D => 67,
            EntryPoint::CreateProgram => 68,
            EntryPoint::CreateShader => 69,
            EntryPoint::CreateShaderProgramv => 70,
            EntryPoint::CullFace => 71,
            EntryPoint::DebugMessageCallback => 72,
            EntryPoint::DebugMessageControl => 73,
            EntryPoint::DebugMessageInsert => 74,
            EntryPoint::DeleteBuffers => 75,
            EntryPoint::DeleteFramebuffers => 76,
            EntryPoint::DeleteProgram => 77,
            EntryPoint::DeleteProgramPipelines => 78,
            EntryPoint::DeleteQueries => 79,
            EntryPoint::DeleteRenderbuffers => 80,
            EntryPoint::DeleteSamplers => 81,
            EntryPoint::DeleteShader => 82,
            EntryPoint::DeleteSync => 83,
            EntryPoint::DeleteTextures => 84,
            EntryPoint::DeleteTransformFeedbacks => 85,
            EntryPoint::DeleteVertexArrays => 86,
            EntryPoint::DepthFunc => 87,
            EntryPoint::DepthMask => 88,
            EntryPoint::DepthRange => 89,
            EntryPoint::DepthRangeArrayv => 90,
            EntryPoint::DepthRangeIndexed => 91,
            EntryPoint::DepthRangef => 92,
            EntryPoint::DetachShader => 93,
            EntryPoint::Disable => 94,
            EntryPoint::DisableVertexAttribArray => 95,
            EntryPoint::Disablei => 96,
            EntryPoint::DispatchCompute => 97,
            EntryPoint::DispatchComputeIndirect => 98,
            EntryPoint::DrawArrays => 99,
            EntryPoint::DrawArraysIndirect => 100,
            EntryPoint::DrawArraysInstanced => 101,
            EntryPoint::DrawArraysInstancedBaseInstance => 102,
            EntryPoint::DrawBuffer => 103,
            EntryPoint::DrawBuffers => 104,
            EntryPoint::DrawElements => 105,
            EntryPoint::DrawElementsBaseVertex => 106,
            EntryPoint::DrawElementsIndirect => 107,
            EntryPoint::DrawElementsInstanced => 108,
            EntryPoint::DrawElementsInstancedBaseInstance => 109,
            EntryPoint::DrawElementsInstancedBaseVertex => 110,
            EntryPoint::DrawElementsInstancedBaseVertexBaseInstance => 111,
            EntryPoint::DrawRangeElements => 112,
            EntryPoint::DrawRangeElementsBaseVertex => 113,
            EntryPoint::DrawTransformFeedback => 114,
            EntryPoint::DrawTransformFeedbackInstanced => 115,
            EntryPoint::DrawTransformFeedbackStream => 116,
            EntryPoint::DrawTransformFeedbackStreamInstanced => 117,
            EntryPoint::Enable => 118,
            EntryPoint::EnableVertexAttribArray => 119,
            EntryPoint::Enablei => 120,
            EntryPoint::EndConditionalRender => 121,
            EntryPoint::EndQuery => 122,
            EntryPoint::EndQueryIndexed => 123,
            EntryPoint::EndTransformFeedback => 124,
            EntryPoint::FenceSync => 125,
            EntryPoint::Finish => 126,
            EntryPoint::Flush => 127,
            EntryPoint::FlushMappedBufferRange => 128,
            EntryPoint::FramebufferParameteri => 129,
            EntryPoint::FramebufferRenderbuffer => 130,
            EntryPoint::FramebufferTexture => 131,
            EntryPoint::FramebufferTexture1D => 132,
            EntryPoint::FramebufferTexture2D => 133,
            EntryPoint::FramebufferTexture3D => 134,
            EntryPoint::FramebufferTextureLayer => 135,
            EntryPoint::FrontFace => 136,
            EntryPoint::GenBuffers => 137,
            EntryPoint::GenFramebuffers => 138,
            EntryPoint::GenProgramPipelines => 139,
            EntryPoint::GenQueries => 140,
            EntryPoint::GenRenderbuffers => 141,
            EntryPoint::GenSamplers => 142,
            EntryPoint::GenTextures => 143,
            EntryPoint::GenTransformFeedbacks => 144,
            EntryPoint::GenVertexArrays => 145,
            EntryPoint::GenerateMipmap => 146,
            EntryPoint::GetActiveAtomicCounterBufferiv => 147,
            EntryPoint::GetActiveAttrib => 148,
            EntryPoint::GetActiveSubroutineName => 149,
            EntryPoint::GetActiveSubroutineUniformName => 150,
            EntryPoint::GetActiveSubroutineUniformiv => 151,
            EntryPoint::GetActiveUniform => 152,
            EntryPoint::GetActiveUniformBlockName => 153,
            EntryPoint::GetActiveUniformBlockiv => 154,
            EntryPoint::GetActiveUniformName => 155,
            EntryPoint::GetActiveUniformsiv => 156,
            EntryPoint::GetAttachedShaders => 157,
            EntryPoint::GetAttribLocation => 158,
            EntryPoint::GetBooleani_v => 159,
            EntryPoint::GetBooleanv => 160,
            EntryPoint::GetBufferParameteri64v => 161,
            EntryPoint::GetBufferParameteriv => 162,
            EntryPoint::GetBufferPointerv => 163,
            EntryPoint::GetBufferSubData => 164,
            EntryPoint::GetCompressedTexImage => 165,
            EntryPoint::GetDebugMessageLog => 166,
            EntryPoint::GetDoublei_v => 167,
            EntryPoint::GetDoublev => 168,
            EntryPoint::GetError => 169,
            EntryPoint::GetFloati_v => 170,
            EntryPoint::GetFloatv => 171,
            EntryPoint::GetFragDataIndex => 172,
            EntryPoint::GetFragDataLocation => 173,
            EntryPoint::GetFramebufferAttachmentParameteriv => 174,
            EntryPoint::GetFramebufferParameteriv => 175,
            EntryPoint::GetInteger64i_v => 176,
            EntryPoint::GetInteger64v => 177,
            EntryPoint::GetIntegeri_v => 178,
            EntryPoint::GetIntegerv => 179,
            EntryPoint::GetInternalformati64v => 180,
            EntryPoint::GetInternalformativ => 181,
            EntryPoint::GetMultisamplefv => 182,
            EntryPoint::GetObjectLabel => 183,
            EntryPoint::GetObjectPtrLabel => 184,
            EntryPoint::GetProgramBinary => 185,
            EntryPoint::GetProgramInfoLog => 186,
            EntryPoint::GetProgramInterfaceiv => 187,
            EntryPoint::GetProgramPipelineInfoLog => 188,
            EntryPoint::GetProgramPipelineiv => 189,
            EntryPoint::GetProgramResourceIndex => 190,
            EntryPoint::GetProgramResourceLocation => 191,
            EntryPoint::GetProgramResourceLocationIndex => 192,
            EntryPoint::GetProgramResourceName => 193,
            EntryPoint::GetProgramResourceiv => 194,
            EntryPoint::GetProgramStageiv => 195,
            EntryPoint::GetProgramiv => 196,
            EntryPoint::GetQueryIndexediv => 197,
            EntryPoint::GetQueryObjecti64v => 198,
            EntryPoint::GetQueryObjectiv => 199,
            EntryPoint::GetQueryObjectui64v => 200,
            EntryPoint::GetQueryObjectuiv => 201,
            EntryPoint::GetQueryiv => 202,
            EntryPoint::GetRenderbufferParameteriv => 203,
            EntryPoint::GetSamplerParameterIiv => 204,
            EntryPoint::GetSamplerParameterIuiv => 205,
            EntryPoint::GetSamplerParameterfv => 206,
            EntryPoint::GetSamplerParameteriv => 207,
            EntryPoint::GetShaderInfoLog => 208,
            EntryPoint::GetShaderPrecisionFormat => 209,
            EntryPoint::GetShaderSource => 210,
            EntryPoint::GetShaderiv => 211,
            EntryPoint::GetString => 212,
            EntryPoint::GetStringi => 213,
            EntryPoint::GetSubroutineIndex => 214,
            EntryPoint::GetSubroutineUniformLocation => 215,
            EntryPoint::GetSynciv => 216,
            EntryPoint::GetTexImage => 217,
            EntryPoint::GetTexLevelParameterfv => 218,
            EntryPoint::GetTexLevelParameteriv => 219,
            EntryPoint::GetTexParameterIiv => 220,
            EntryPoint::GetTexParameterIuiv => 221,
            EntryPoint::GetTexParameterfv => 222,
            EntryPoint::GetTexParameteriv => 223,
            EntryPoint::GetTransformFeedbackVarying => 224,
            EntryPoint::GetUniformBlockIndex => 225,
            EntryPoint::GetUniformIndices => 226,
            EntryPoint::GetUniformLocation => 227,
            EntryPoint::GetUniformSubroutineuiv => 228,
            EntryPoint::GetUniformdv => 229,
            EntryPoint::GetUniformfv => 230,
            EntryPoint::GetUniformiv => 231,
            EntryPoint::GetUniformuiv => 232,
            EntryPoint::GetVertexAttribIiv => 233,
            EntryPoint::GetVertexAttribIuiv => 234,
            EntryPoint::GetVertexAttribLdv => 235,
            EntryPoint::GetVertexAttribPointerv => 236,
            EntryPoint::GetVertexAttribdv => 237,
            EntryPoint::GetVertexAttribfv => 238,
            EntryPoint::GetVertexAttribiv => 239,
            EntryPoint::Hint => 240,
            EntryPoint::InvalidateBufferData => 241,
            EntryPoint::InvalidateBufferSubData => 242,
            EntryPoint::InvalidateFramebuffer => 243,
            EntryPoint::InvalidateSubFramebuffer => 244,
            EntryPoint::InvalidateTexImage => 245,
            EntryPoint::InvalidateTexSubImage => 246,
            EntryPoint::IsBuffer => 247,
            EntryPoint::IsEnabled => 248,
            EntryPoint::IsEnabledi => 249,
            EntryPoint::IsFramebuffer => 250,
            EntryPoint::IsProgram => 251,
            EntryPoint::IsProgramPipeline => 252,
            EntryPoint::IsQuery => 253,
            EntryPoint::IsRenderbuffer => 254,
            EntryPoint::IsSampler => 255,
            EntryPoint::IsShader => 256,
            EntryPoint::IsSync => 257,
            EntryPoint::IsTexture => 258,
            EntryPoint::IsTransformFeedback => 259,
            EntryPoint::IsVertexArray => 260,
            EntryPoint::LineWidth => 261,
            EntryPoint::LinkProgram => 262,
            EntryPoint::LogicOp => 263,
            EntryPoint::MapBuffer => 264,
            EntryPoint::MapBufferRange => 265,
            EntryPoint::MemoryBarrier => 266,
            EntryPoint::MinSampleShading => 267,
            EntryPoint::MultiDrawArrays => 268,
            EntryPoint::MultiDrawArraysIndirect => 269,
            EntryPoint::MultiDrawElements => 270,
            EntryPoint::MultiDrawElementsBaseVertex => 271,
            EntryPoint::MultiDrawElementsIndirect => 272,
            EntryPoint::MultiTexCoordP1ui => 273,
            EntryPoint::MultiTexCoordP1uiv => 274,
            EntryPoint::MultiTexCoordP2ui => 275,
            EntryPoint::MultiTexCoordP2uiv => 276,
            EntryPoint::MultiTexCoordP3ui => 277,
            EntryPoint::MultiTexCoordP3uiv => 278,
            EntryPoint::MultiTexCoordP4ui => 279,
            EntryPoint::MultiTexCoordP4uiv => 280,
            EntryPoint::NormalP3ui => 281,
            EntryPoint::NormalP3uiv => 282,
            EntryPoint::ObjectLabel => 283,
            EntryPoint::ObjectPtrLabel => 284,
            EntryPoint::PatchParameterfv => 285,
            EntryPoint::PatchParameteri => 286,
            EntryPoint::PauseTransformFeedback => 287,
            EntryPoint::PixelStoref => 288,
            EntryPoint::PixelStorei => 289,
            EntryPoint::PointParameterf => 290,
            EntryPoint::PointParameterfv => 291,
            EntryPoint::PointParameteri => 292,
            EntryPoint::PointParameteriv => 293,
            EntryPoint::PointSize => 294,
            EntryPoint::PolygonMode => 295,
            EntryPoint::PolygonOffset => 296,
            EntryPoint::PopDebugGroup => 297,
            EntryPoint::PrimitiveRestartIndex => 298,
            EntryPoint::ProgramBinary => 299,
            EntryPoint::ProgramParameteri => 300,
            EntryPoint::ProgramUniform1d => 301,
            EntryPoint::ProgramUniform1dv => 302,
            EntryPoint::ProgramUniform1f => 303,
            EntryPoint::ProgramUniform1fv => 304,
            EntryPoint::ProgramUniform1i => 305,
            EntryPoint::ProgramUniform1iv => 306,
            EntryPoint::ProgramUniform1ui => 307,
            EntryPoint::ProgramUniform1uiv => 308,
            EntryPoint::ProgramUniform2d => 309,
            EntryPoint::ProgramUniform2dv => 310,
            EntryPoint::ProgramUniform2f => 311,
            EntryPoint::ProgramUniform2fv => 312,
            EntryPoint::ProgramUniform2i => 313,
            EntryPoint::ProgramUniform2iv => 314,
            EntryPoint::ProgramUniform2ui => 315,
            EntryPoint::ProgramUniform2uiv => 316,
            EntryPoint::ProgramUniform3d => 317,
            EntryPoint::ProgramUniform3dv => 318,
            EntryPoint::ProgramUniform3f => 319,
            EntryPoint::ProgramUniform3fv => 320,
            EntryPoint::ProgramUniform3i => 321,
            EntryPoint::ProgramUniform3iv => 322,
            EntryPoint::ProgramUniform3ui => 323,
            EntryPoint::ProgramUniform3uiv => 324,
            EntryPoint::ProgramUniform4d => 325,
            EntryPoint::ProgramUniform4dv => 326,
            EntryPoint::ProgramUniform4f => 327,
            EntryPoint::ProgramUniform4fv => 328,
            EntryPoint::ProgramUniform4i => 329,
            EntryPoint::ProgramUniform4iv => 330,
            EntryPoint::ProgramUniform4ui => 331,
            EntryPoint::ProgramUniform4uiv => 332,
            EntryPoint::ProgramUniformMatrix2dv => 333,
            EntryPoint::ProgramUniformMatrix2fv => 334,
            EntryPoint::ProgramUniformMatrix2x3dv => 335,
            EntryPoint::ProgramUniformMatrix2x3fv => 336,
            EntryPoint::ProgramUniformMatrix2x4dv => 337,
            EntryPoint::ProgramUniformMatrix2x4fv => 338,
            EntryPoint::ProgramUniformMatrix3dv => 339,
            EntryPoint::ProgramUniformMatrix3fv => 340,
            EntryPoint::ProgramUniformMatrix3x2dv => 341,
            EntryPoint::ProgramUniformMatrix3x2fv => 342,
            EntryPoint::ProgramUniformMatrix3x4dv => 343,
            EntryPoint::ProgramUniformMatrix3x4fv => 344,
            EntryPoint::ProgramUniformMatrix4dv => 345,
            EntryPoint::ProgramUniformMatrix4fv => 346,
            EntryPoint::ProgramUniformMatrix4x2dv => 347,
            EntryPoint::ProgramUniformMatrix4x2fv => 348,
            EntryPoint::ProgramUniformMatrix4x3dv => 349,
            EntryPoint::ProgramUniformMatrix4x3fv => 350,
            EntryPoint::ProvokingVertex => 351,
            EntryPoint::PushDebugGroup => 352,
            EntryPoint::QueryCounter => 353,
            EntryPoint::ReadBuffer => 354,
            EntryPoint::ReadPixels => 355,
            EntryPoint::ReleaseShaderCompiler => 356,
            EntryPoint::RenderbufferStorage => 357,
            EntryPoint::RenderbufferStorageMultisample => 358,
            EntryPoint::ResumeTransformFeedback => 359,
            EntryPoint::SampleCoverage => 360,
            EntryPoint::SampleMaski => 361,
            EntryPoint::SamplerParameterIiv => 362,
            EntryPoint::SamplerParameterIuiv => 363,
            EntryPoint::SamplerParameterf => 364,
            EntryPoint::SamplerParameterfv => 365,
            EntryPoint::SamplerParameteri => 366,
            EntryPoint::SamplerParameteriv => 367,
            EntryPoint::Scissor => 368,
            EntryPoint::ScissorArrayv => 369,
            EntryPoint::ScissorIndexed => 370,
            EntryPoint::ScissorIndexedv => 371,
            EntryPoint::SecondaryColorP3ui => 372,
            EntryPoint::SecondaryColorP3uiv => 373,
            EntryPoint::ShaderBinary => 374,
            EntryPoint::ShaderSource => 375,
            EntryPoint::ShaderStorageBlockBinding => 376,
            EntryPoint::StencilFunc => 377,
            EntryPoint::StencilFuncSeparate => 378,
            EntryPoint::StencilMask => 379,
            EntryPoint::StencilMaskSeparate => 380,
            EntryPoint::StencilOp => 381,
            EntryPoint::StencilOpSeparate => 382,
            EntryPoint::TexBuffer => 383,
            EntryPoint::TexBufferRange => 384,
            EntryPoint::TexCoordP1ui => 385,
            EntryPoint::TexCoordP1uiv => 386,
            EntryPoint::TexCoordP2ui => 387,
            EntryPoint::TexCoordP2uiv => 388,
            EntryPoint::TexCoordP3ui => 389,
            EntryPoint::TexCoordP3uiv => 390,
            EntryPoint::TexCoordP4ui => 391,
            EntryPoint::TexCoordP4uiv => 392,
            EntryPoint::TexImage1D => 393,
            EntryPoint::TexImage2D => 394,
            EntryPoint::TexImage2DMultisample => 395,
            EntryPoint::TexImage3D => 396,
            EntryPoint::TexImage3DMultisample => 397,
            EntryPoint::TexParameterIiv => 398,
            EntryPoint::TexParameterIuiv => 399,
            EntryPoint::TexParameterf => 400,
            EntryPoint::TexParameterfv => 401,
            EntryPoint::TexParameteri => 402,
            EntryPoint::TexParameteriv => 403,
            EntryPoint::TexStorage1D => 404,
            EntryPoint::TexStorage2D => 405,
            EntryPoint::TexStorage2DMultisample => 406,
            EntryPoint::TexStorage3D => 407,
            EntryPoint::TexStorage3DMultisample => 408,
            EntryPoint::TexSubImage1D => 409,
            EntryPoint::TexSubImage2D => 410,
            EntryPoint::TexSubImage3D => 411,
            EntryPoint::TextureView => 412,
            EntryPoint::TransformFeedbackVaryings => 413,
            EntryPoint::Uniform1d => 414,
            EntryPoint::Uniform1dv => 415,
            EntryPoint::Uniform1f => 416,
            EntryPoint::Uniform1fv => 417,
            EntryPoint::Uniform1i => 418,
            EntryPoint::Uniform1iv => 419,
            EntryPoint::Uniform1ui => 420,
            EntryPoint::Uniform1uiv => 421,
            EntryPoint::Uniform2d => 422,
            EntryPoint::Uniform2dv => 423,
            EntryPoint::Uniform2f => 424,
            EntryPoint::Uniform2fv => 425,
            EntryPoint::Uniform2i => 426,
            EntryPoint::Uniform2iv => 427,
            EntryPoint::Uniform2ui => 428,
            EntryPoint::Uniform2uiv => 429,
            EntryPoint::Uniform3d => 430,
            EntryPoint::Uniform3dv => 431,
            EntryPoint::Uniform3f => 432,
            EntryPoint::Uniform3fv => 433,
            EntryPoint::Uniform3i => 434,
            EntryPoint::Uniform3iv => 435,
            EntryPoint::Uniform3ui => 436,
            EntryPoint::Uniform3uiv => 437,
            EntryPoint::Uniform4d => 438,
            EntryPoint::Uniform4dv => 439,
            EntryPoint::Uniform4f => 440,
            EntryPoint::Uniform4fv => 441,
            EntryPoint::Uniform4i => 442,
            EntryPoint::Uniform4iv => 443,
            EntryPoint::Uniform4ui => 444,
            EntryPoint::Uniform4uiv => 445,
            EntryPoint::UniformBlockBinding => 446,
            EntryPoint::UniformMatrix2dv => 447,
            EntryPoint::UniformMatrix2fv => 448,
            EntryPoint::UniformMatrix2x3dv => 449,
            EntryPoint::UniformMatrix2x3fv => 450,
            EntryPoint::UniformMatrix2x4dv => 451,
            EntryPoint::UniformMatrix2x4fv => 452,
            EntryPoint::UniformMatrix3dv => 453,
            EntryPoint::UniformMatrix3fv => 454,
            EntryPoint::UniformMatrix3x2dv => 455,
            EntryPoint::UniformMatrix3x2fv => 456,
            EntryPoint::UniformMatrix3x4dv => 457,
            EntryPoint::UniformMatrix3x4fv => 458,
            EntryPoint::UniformMatrix4dv => 459,
            EntryPoint::UniformMatrix4fv => 460,
            EntryPoint::UniformMatrix4x2dv => 461,
            EntryPoint::UniformMatrix4x2fv => 462,
            EntryPoint::UniformMatrix4x3dv => 463,
            EntryPoint::UniformMatrix4x3fv => 464,
            EntryPoint::UniformSubroutinesuiv => 465,
            EntryPoint::UnmapBuffer => 466,
            EntryPoint::UseProgram => 467,
            EntryPoint::UseProgramStages => 468,
            EntryPoint::ValidateProgram => 469,
            EntryPoint::ValidateProgramPipeline => 470,
            EntryPoint::VertexAttrib1d => 471,
            EntryPoint::VertexAttrib1dv => 472,
            EntryPoint::VertexAttrib1f => 473,
            EntryPoint::VertexAttrib1fv => 474,
            EntryPoint::VertexAttrib1s => 475,
            EntryPoint::VertexAttrib1sv => 476,
            EntryPoint::VertexAttrib2d => 477,
            EntryPoint::VertexAttrib2dv => 478,
            EntryPoint::VertexAttrib2f => 479,
            EntryPoint::VertexAttrib2fv => 480,
            EntryPoint::VertexAttrib2s => 481,
            EntryPoint::VertexAttrib2sv => 482,
            EntryPoint::VertexAttrib3d => 483,
            EntryPoint::VertexAttrib3dv => 484,
            EntryPoint::VertexAttrib3f => 485,
            EntryPoint::VertexAttrib3fv => 486,
            EntryPoint::VertexAttrib3s => 487,
            EntryPoint::VertexAttrib3sv => 488,
            EntryPoint::VertexAttrib4Nbv => 489,
            EntryPoint::VertexAttrib4Niv => 490,
            EntryPoint::VertexAttrib4Nsv => 491,
            EntryPoint::VertexAttrib4Nub => 492,
            EntryPoint::VertexAttrib4Nubv => 493,
            EntryPoint::VertexAttrib4Nuiv => 494,
            EntryPoint::VertexAttrib4Nusv => 495,
            EntryPoint::VertexAttrib4bv => 496,
            EntryPoint::VertexAttrib4d => 497,
            EntryPoint::VertexAttrib4dv => 498,
            EntryPoint::VertexAttrib4f => 499,
            EntryPoint::VertexAttrib4fv => 500,
            EntryPoint::VertexAttrib4iv => 501,
            EntryPoint::VertexAttrib4s => 502,
            EntryPoint::VertexAttrib4sv => 503,
            EntryPoint::VertexAttrib4ubv => 504,
            EntryPoint::VertexAttrib4uiv => 505,
            EntryPoint::VertexAttrib4usv => 506,
            EntryPoint::VertexAttribBinding => 507,
            EntryPoint::VertexAttribDivisor => 508,
            EntryPoint::VertexAttribFormat => 509,
            EntryPoint::VertexAttribI1i => 510,
            EntryPoint::VertexAttribI1iv => 511,
            EntryPoint::VertexAttribI1ui => 512,
            EntryPoint::VertexAttribI1uiv => 513,
            EntryPoint::VertexAttribI2i => 514,
            EntryPoint::VertexAttribI2iv => 515,
            EntryPoint::VertexAttribI2ui => 516,
            EntryPoint::VertexAttribI2uiv => 517,
            EntryPoint::VertexAttribI3i => 518,
            EntryPoint::VertexAttribI3iv => 519,
            EntryPoint::VertexAttribI3ui => 520,
            EntryPoint::VertexAttribI3uiv => 521,
            EntryPoint::VertexAttribI4bv => 522,
            EntryPoint::VertexAttribI4i => 523,
            EntryPoint::VertexAttribI4iv => 524,
            EntryPoint::VertexAttribI4sv => 525,
            EntryPoint::VertexAttribI4ubv => 526,
            EntryPoint::VertexAttribI4ui => 527,
            EntryPoint::VertexAttribI4uiv => 528,
            EntryPoint::VertexAttribI4usv => 529,
            EntryPoint::VertexAttribIFormat => 530,
            EntryPoint::VertexAttribIPointer => 531,
            EntryPoint::VertexAttribL1d => 532,
            EntryPoint::VertexAttribL1dv => 533,
            EntryPoint::VertexAttribL2d => 534,
            EntryPoint::VertexAttribL2dv => 535,
            EntryPoint::VertexAttribL3d => 536,
            EntryPoint::VertexAttribL3dv => 537,
            EntryPoint::VertexAttribL4d => 538,
            EntryPoint::VertexAttribL4dv => 539,
            EntryPoint::VertexAttribLFormat => 540,
            EntryPoint::VertexAttribLPointer => 541,
            EntryPoint::VertexAttribP1ui => 542,
            EntryPoint::VertexAttribP1uiv => 543,
            EntryPoint::VertexAttribP2ui => 544,
            EntryPoint::VertexAttribP2uiv => 545,
            EntryPoint::VertexAttribP3ui => 546,
            EntryPoint::VertexAttribP3uiv => 547,
            EntryPoint::VertexAttribP4ui => 548,
            EntryPoint::VertexAttribP4uiv => 549,
            EntryPoint::VertexAttribPointer => 550,
            EntryPoint::VertexBindingDivisor => 551,
            EntryPoint::VertexP2ui => 552,
            EntryPoint::VertexP2uiv => 553,
            EntryPoint::VertexP3ui => 554,
            EntryPoint::VertexP3uiv => 555,
            EntryPoint::VertexP4ui => 556,
            EntryPoint::VertexP4uiv => 557,
            EntryPoint::Viewport => 558,
            EntryPoint::ViewportArrayv => 559,
            EntryPoint::ViewportIndexedf => 560,
            EntryPoint::ViewportIndexedfv => 561,
            EntryPoint::WaitSync => 562,
        }
    }

    /// The position of this entry point in `ENTRY_POINTS`.
    pub fn index(self) -> (i: usize)
        ensures
            i == self.spec_index(),
            i < ENTRY_POINT_COUNT,
            ENTRY_POINTS[i as int] == self,
    {
        match self {
            EntryPoint::ActiveShaderProgram => 0,
            EntryPoint::ActiveTexture => 1,
            EntryPoint::AttachShader => 2,
            EntryPoint::BeginConditionalRender => 3,
            EntryPoint::BeginQuery => 4,
            EntryPoint::BeginQueryIndexed => 5,
            EntryPoint::BeginTransformFeedback => 6,
            EntryPoint::BindAttribLocation => 7,
            EntryPoint::BindBuffer => 8,
            EntryPoint::BindBufferBase => 9,
            EntryPoint::BindBufferRange => 10,
            EntryPoint::BindFragDataLocation => 11,
            EntryPoint::BindFragDataLocationIndexed => 12,
            EntryPoint::BindFramebuffer => 13,
            EntryPoint::BindImageTexture => 14,
            EntryPoint::BindProgramPipeline => 15,
            EntryPoint::BindRenderbuffer => 16,
            EntryPoint::BindSampler => 17,
            EntryPoint::BindTexture => 18,
            EntryPoint::BindTransformFeedback => 19,
            EntryPoint::BindVertexArray => 20,
            EntryPoint::BindVertexBuffer => 21,
            EntryPoint::BlendColor => 22,
            EntryPoint::BlendEquation => 23,
            EntryPoint::BlendEquationSeparate => 24,
            EntryPoint::BlendEquationSeparatei => 25,
            EntryPoint::BlendEquationi => 26,
            EntryPoint::BlendFunc => 27,
            EntryPoint::BlendFuncSeparate => 28,
            EntryPoint::BlendFuncSeparatei => 29,
            EntryPoint::BlendFunci => 30,
            EntryPoint::BlitFramebuffer => 31,
            EntryPoint::BufferData => 32,
            EntryPoint::BufferSubData => 33,
            EntryPoint::CheckFramebufferStatus => 34,
            EntryPoint::ClampColor => 35,
            EntryPoint::Clear => 36,
            EntryPoint::ClearBufferData => 37,
            EntryPoint::ClearBufferSubData => 38,
            EntryPoint::ClearBufferfi => 39,
            EntryPoint::ClearBufferfv => 40,
            EntryPoint::ClearBufferiv => 41,
            EntryPoint::ClearBufferuiv => 42,
            EntryPoint::ClearColor => 43,
            EntryPoint::ClearDepth => 44,
            EntryPoint::ClearDepthf => 45,
            EntryPoint::ClearStencil => 46,
            EntryPoint::ClientWaitSync => 47,
            EntryPoint::ColorMask => 48,
            EntryPoint::ColorMaski => 49,
            EntryPoint::ColorP3ui => 50,
            EntryPoint::ColorP3uiv => 51,
            EntryPoint::ColorP4ui => 52,
            EntryPoint::ColorP4uiv => 53,
            EntryPoint::CompileShader => 54,
            EntryPoint::CompressedTexImage1D => 55,
            EntryPoint::CompressedTexImage2D => 56,
            EntryPoint::CompressedTexImage3D => 57,
            EntryPoint::CompressedTexSubImage1D => 58,
            EntryPoint::CompressedTexSubImage2D => 59,
            EntryPoint::CompressedTexSubImage3D => 60,
            EntryPoint::CopyBufferSubData => 61,
            EntryPoint::CopyImageSubData => 62,
            EntryPoint::CopyTexImage1D => 63,
            EntryPoint::CopyTexImage2D => 64,
            EntryPoint::CopyTexSubImage1D => 65,
            EntryPoint::CopyTexSubImage2D => 66,
            EntryPoint::CopyTexSubImage3D => 67,
            EntryPoint::CreateProgram => 68,
            EntryPoint::CreateShader => 69,
            EntryPoint::CreateShaderProgramv => 70,
            EntryPoint::CullFace => 71,
            EntryPoint::DebugMessageCallback => 72,
            EntryPoint::DebugMessageControl => 73,
            EntryPoint::DebugMessageInsert => 74,
            EntryPoint::DeleteBuffers => 75,
            EntryPoint::DeleteFramebuffers => 76,
            EntryPoint::DeleteProgram => 77,
            EntryPoint::DeleteProgramPipelines => 78,
            EntryPoint::DeleteQueries => 79,
            EntryPoint::DeleteRenderbuffers => 80,
            EntryPoint::DeleteSamplers => 81,
            EntryPoint::DeleteShader => 82,
            EntryPoint::DeleteSync => 83,
            EntryPoint::DeleteTextures => 84,
            EntryPoint::DeleteTransformFeedbacks => 85,
            EntryPoint::DeleteVertexArrays => 86,
            EntryPoint::DepthFunc => 87,
            EntryPoint::DepthMask => 88,
            EntryPoint::DepthRange => 89,
            EntryPoint::DepthRangeArrayv => 90,
            EntryPoint::DepthRangeIndexed => 91,
            EntryPoint::DepthRangef => 92,
            EntryPoint::DetachShader => 93,
            EntryPoint::Disable => 94,
            EntryPoint::DisableVertexAttribArray => 95,
            EntryPoint::Disablei => 96,
            EntryPoint::DispatchCompute => 97,
            EntryPoint::DispatchComputeIndirect => 98,
            EntryPoint::DrawArrays => 99,
            EntryPoint::DrawArraysIndirect => 100,
            EntryPoint::DrawArraysInstanced => 101,
            EntryPoint::DrawArraysInstancedBaseInstance => 102,
            EntryPoint::DrawBuffer => 103,
            EntryPoint::DrawBuffers => 104,
            EntryPoint::DrawElements => 105,
            EntryPoint::DrawElementsBaseVertex => 106,
            EntryPoint::DrawElementsIndirect => 107,
            EntryPoint::DrawElementsInstanced => 108,
            EntryPoint::DrawElementsInstancedBaseInstance => 109,
            EntryPoint::DrawElementsInstancedBaseVertex => 110,
            EntryPoint::DrawElementsInstancedBaseVertexBaseInstance => 111,
            EntryPoint::DrawRangeElements => 112,
            EntryPoint::DrawRangeElementsBaseVertex => 113,
            EntryPoint::DrawTransformFeedback => 114,
            EntryPoint::DrawTransformFeedbackInstanced => 115,
            EntryPoint::DrawTransformFeedbackStream => 116,
            EntryPoint::DrawTransformFeedbackStreamInstanced => 117,
            EntryPoint::Enable => 118,
            EntryPoint::EnableVertexAttribArray => 119,
            EntryPoint::Enablei => 120,
            EntryPoint::EndConditionalRender => 121,
            EntryPoint::EndQuery => 122,
            EntryPoint::EndQueryIndexed => 123,
            EntryPoint::EndTransformFeedback => 124,
            EntryPoint::FenceSync => 125,
            EntryPoint::Finish => 126,
            EntryPoint::Flush => 127,
            EntryPoint::FlushMappedBufferRange => 128,
            EntryPoint::FramebufferParameteri => 129,
            EntryPoint::FramebufferRenderbuffer => 130,
            EntryPoint::FramebufferTexture => 131,
            EntryPoint::FramebufferTexture1D => 132,
            EntryPoint::FramebufferTexture2D => 133,
            EntryPoint::FramebufferTexture3D => 134,
            EntryPoint::FramebufferTextureLayer => 135,
            EntryPoint::FrontFace => 136,
            EntryPoint::GenBuffers => 137,
            EntryPoint::GenFramebuffers => 138,
            EntryPoint::GenProgramPipelines => 139,
            EntryPoint::GenQueries => 140,
            EntryPoint::GenRenderbuffers => 141,
            EntryPoint::GenSamplers => 142,
            EntryPoint::GenTextures => 143,
            EntryPoint::GenTransformFeedbacks => 144,
            EntryPoint::GenVertexArrays => 145,
            EntryPoint::GenerateMipmap => 146,
            EntryPoint::GetActiveAtomicCounterBufferiv => 147,
            EntryPoint::GetActiveAttrib => 148,
            EntryPoint::GetActiveSubroutineName => 149,
            EntryPoint::GetActiveSubroutineUniformName => 150,
            EntryPoint::GetActiveSubroutineUniformiv => 151,
            EntryPoint::GetActiveUniform => 152,
            EntryPoint::GetActiveUniformBlockName => 153,
            EntryPoint::GetActiveUniformBlockiv => 154,
            EntryPoint::GetActiveUniformName => 155,
            EntryPoint::GetActiveUniformsiv => 156,
            EntryPoint::GetAttachedShaders => 157,
            EntryPoint::GetAttribLocation => 158,
            EntryPoint::GetBooleani_v => 159,
            EntryPoint::GetBooleanv => 160,
            EntryPoint::GetBufferParameteri64v => 161,
            EntryPoint::GetBufferParameteriv => 162,
            EntryPoint::GetBufferPointerv => 163,
            EntryPoint::GetBufferSubData => 164,
            EntryPoint::GetCompressedTexImage => 165,
            EntryPoint::GetDebugMessageLog => 166,
            EntryPoint::GetDoublei_v => 167,
            EntryPoint::GetDoublev => 168,
            EntryPoint::GetError => 169,
            EntryPoint::GetFloati_v => 170,
            EntryPoint::GetFloatv => 171,
            EntryPoint::GetFragDataIndex => 172,
            EntryPoint::GetFragDataLocation => 173,
            EntryPoint::GetFramebufferAttachmentParameteriv => 174,
            EntryPoint::GetFramebufferParameteriv => 175,
            EntryPoint::GetInteger64i_v => 176,
            EntryPoint::GetInteger64v => 177,
            EntryPoint::GetIntegeri_v => 178,
            EntryPoint::GetIntegerv => 179,
            EntryPoint::GetInternalformati64v => 180,
            EntryPoint::GetInternalformativ => 181,
            EntryPoint::GetMultisamplefv => 182,
            EntryPoint::GetObjectLabel => 183,
            EntryPoint::GetObjectPtrLabel => 184,
            EntryPoint::GetProgramBinary => 185,
            EntryPoint::GetProgramInfoLog => 186,
            EntryPoint::GetProgramInterfaceiv => 187,
            EntryPoint::GetProgramPipelineInfoLog => 188,
            EntryPoint::GetProgramPipelineiv => 189,
            EntryPoint::GetProgramResourceIndex => 190,
            EntryPoint::GetProgramResourceLocation => 191,
            EntryPoint::GetProgramResourceLocationIndex => 192,
            EntryPoint::GetProgramResourceName => 193,
            EntryPoint::GetProgramResourceiv => 194,
            EntryPoint::GetProgramStageiv => 195,
            EntryPoint::GetProgramiv => 196,
            EntryPoint::GetQueryIndexediv => 197,
            EntryPoint::GetQueryObjecti64v => 198,
            EntryPoint::GetQueryObjectiv => 199,
            EntryPoint::GetQueryObjectui64v => 200,
            EntryPoint::GetQueryObjectuiv => 201,
            EntryPoint::GetQueryiv => 202,
            EntryPoint::GetRenderbufferParameteriv => 203,
            EntryPoint::GetSamplerParameterIiv => 204,
            EntryPoint::GetSamplerParameterIuiv => 205,
            EntryPoint::GetSamplerParameterfv => 206,
            EntryPoint::GetSamplerParameteriv => 207,
            EntryPoint::GetShaderInfoLog => 208,
            EntryPoint::GetShaderPrecisionFormat => 209,
            EntryPoint::GetShaderSource => 210,
            EntryPoint::GetShaderiv => 211,
            EntryPoint::GetString => 212,
            EntryPoint::GetStringi => 213,
            EntryPoint::GetSubroutineIndex => 214,
            EntryPoint::GetSubroutineUniformLocation => 215,
            EntryPoint::GetSynciv => 216,
            EntryPoint::GetTexImage => 217,
            EntryPoint::GetTexLevelParameterfv => 218,
            EntryPoint::GetTexLevelParameteriv => 219,
            EntryPoint::GetTexParameterIiv => 220,
            EntryPoint::GetTexParameterIuiv => 221,
            EntryPoint::GetTexParameterfv => 222,
            EntryPoint::GetTexParameteriv => 223,
            EntryPoint::GetTransformFeedbackVarying => 224,
            EntryPoint::GetUniformBlockIndex => 225,
            EntryPoint::GetUniformIndices => 226,
            EntryPoint::GetUniformLocation => 227,
            EntryPoint::GetUniformSubroutineuiv => 228,
            EntryPoint::GetUniformdv => 229,
            EntryPoint::GetUniformfv => 230,
            EntryPoint::GetUniformiv => 231,
            EntryPoint::GetUniformuiv => 232,
            EntryPoint::GetVertexAttribIiv => 233,
            EntryPoint::GetVertexAttribIuiv => 234,
            EntryPoint::GetVertexAttribLdv => 235,
            EntryPoint::GetVertexAttribPointerv => 236,
            EntryPoint::GetVertexAttribdv => 237,
            EntryPoint::GetVertexAttribfv => 238,
            EntryPoint::GetVertexAttribiv => 239,
            EntryPoint::Hint => 240,
            EntryPoint::InvalidateBufferData => 241,
            EntryPoint::InvalidateBufferSubData => 242,
            EntryPoint::InvalidateFramebuffer => 243,
            EntryPoint::InvalidateSubFramebuffer => 244,
            EntryPoint::InvalidateTexImage => 245,
            EntryPoint::InvalidateTexSubImage => 246,
            EntryPoint::IsBuffer => 247,
            EntryPoint::IsEnabled => 248,
            EntryPoint::IsEnabledi => 249,
            EntryPoint::IsFramebuffer => 250,
            EntryPoint::IsProgram => 251,
            EntryPoint::IsProgramPipeline => 252,
            EntryPoint::IsQuery => 253,
            EntryPoint::IsRenderbuffer => 254,
            EntryPoint::IsSampler => 255,
            EntryPoint::IsShader => 256,
            EntryPoint::IsSync => 257,
            EntryPoint::IsTexture => 258,
            EntryPoint::IsTransformFeedback => 259,
            EntryPoint::IsVertexArray => 260,
            EntryPoint::LineWidth => 261,
            EntryPoint::LinkProgram => 262,
            EntryPoint::LogicOp => 263,
            EntryPoint::MapBuffer => 264,
            EntryPoint::MapBufferRange => 265,
            EntryPoint::MemoryBarrier => 266,
            EntryPoint::MinSampleShading => 267,
            EntryPoint::MultiDrawArrays => 268,
            EntryPoint::MultiDrawArraysIndirect => 269,
            EntryPoint::MultiDrawElements => 270,
            EntryPoint::MultiDrawElementsBaseVertex => 271,
            EntryPoint::MultiDrawElementsIndirect => 272,
            EntryPoint::MultiTexCoordP1ui => 273,
            EntryPoint::MultiTexCoordP1uiv => 274,
            EntryPoint::MultiTexCoordP2ui => 275,
            EntryPoint::MultiTexCoordP2uiv => 276,
            EntryPoint::MultiTexCoordP3ui => 277,
            EntryPoint::MultiTexCoordP3uiv => 278,
            EntryPoint::MultiTexCoordP4ui => 279,
            EntryPoint::MultiTexCoordP4uiv => 280,
            EntryPoint::NormalP3ui => 281,
            EntryPoint::NormalP3uiv => 282,
            EntryPoint::ObjectLabel => 283,
            EntryPoint::ObjectPtrLabel => 284,
            EntryPoint::PatchParameterfv => 285,
            EntryPoint::PatchParameteri => 286,
            EntryPoint::PauseTransformFeedback => 287,
            EntryPoint::PixelStoref => 288,
            EntryPoint::PixelStorei => 289,
            EntryPoint::PointParameterf => 290,
            EntryPoint::PointParameterfv => 291,
            EntryPoint::PointParameteri => 292,
            EntryPoint::PointParameteriv => 293,
            EntryPoint::PointSize => 294,
            EntryPoint::PolygonMode => 295,
            EntryPoint::PolygonOffset => 296,
            EntryPoint::PopDebugGroup => 297,
            EntryPoint::PrimitiveRestartIndex => 298,
            EntryPoint::ProgramBinary => 299,
            EntryPoint::ProgramParameteri => 300,
            EntryPoint::ProgramUniform1d => 301,
            EntryPoint::ProgramUniform1dv => 302,
            EntryPoint::ProgramUniform1f => 303,
            EntryPoint::ProgramUniform1fv => 304,
            EntryPoint::ProgramUniform1i => 305,
            EntryPoint::ProgramUniform1iv => 306,
            EntryPoint::ProgramUniform1ui => 307,
            EntryPoint::ProgramUniform1uiv => 308,
            EntryPoint::ProgramUniform2d => 309,
            EntryPoint::ProgramUniform2dv => 310,
            EntryPoint::ProgramUniform2f => 311,
            EntryPoint::ProgramUniform2fv => 312,
            EntryPoint::ProgramUniform2i => 313,
            EntryPoint::ProgramUniform2iv => 314,
            EntryPoint::ProgramUniform2ui => 315,
            EntryPoint::ProgramUniform2uiv => 316,
            EntryPoint::ProgramUniform3d => 317,
            EntryPoint::ProgramUniform3dv => 318,
            EntryPoint::ProgramUniform3f => 319,
            EntryPoint::ProgramUniform3fv => 320,
            EntryPoint::ProgramUniform3i => 321,
            EntryPoint::ProgramUniform3iv => 322,
            EntryPoint::ProgramUniform3ui => 323,
            EntryPoint::ProgramUniform3uiv => 324,
            EntryPoint::ProgramUniform4d => 325,
            EntryPoint::ProgramUniform4dv => 326,
            EntryPoint::ProgramUniform4f => 327,
            EntryPoint::ProgramUniform4fv => 328,
            EntryPoint::ProgramUniform4i => 329,
            EntryPoint::ProgramUniform4iv => 330,
            EntryPoint::ProgramUniform4ui => 331,
            EntryPoint::ProgramUniform4uiv => 332,
            EntryPoint::ProgramUniformMatrix2dv => 333,
            EntryPoint::ProgramUniformMatrix2fv => 334,
            EntryPoint::ProgramUniformMatrix2x3dv => 335,
            EntryPoint::ProgramUniformMatrix2x3fv => 336,
            EntryPoint::ProgramUniformMatrix2x4dv => 337,
            EntryPoint::ProgramUniformMatrix2x4fv => 338,
            EntryPoint::ProgramUniformMatrix3dv => 339,
            EntryPoint::ProgramUniformMatrix3fv => 340,
            EntryPoint::ProgramUniformMatrix3x2dv => 341,
            EntryPoint::ProgramUniformMatrix3x2fv => 342,
            EntryPoint::ProgramUniformMatrix3x4dv => 343,
            EntryPoint::ProgramUniformMatrix3x4fv => 344,
            EntryPoint::ProgramUniformMatrix4dv => 345,
            EntryPoint::ProgramUniformMatrix4fv => 346,
            EntryPoint::ProgramUniformMatrix4x2dv => 347,
            EntryPoint::ProgramUniformMatrix4x2fv => 348,
            EntryPoint::ProgramUniformMatrix4x3dv => 349,
            EntryPoint::ProgramUniformMatrix4x3fv => 350,
            EntryPoint::ProvokingVertex => 351,
            EntryPoint::PushDebugGroup => 352,
            EntryPoint::QueryCounter => 353,
            EntryPoint::ReadBuffer => 354,
            EntryPoint::ReadPixels => 355,
            EntryPoint::ReleaseShaderCompiler => 356,
            EntryPoint::RenderbufferStorage => 357,
            EntryPoint::RenderbufferStorageMultisample => 358,
            EntryPoint::ResumeTransformFeedback => 359,
            EntryPoint::SampleCoverage => 360,
            EntryPoint::SampleMaski => 361,
            EntryPoint::SamplerParameterIiv => 362,
            EntryPoint::SamplerParameterIuiv => 363,
            EntryPoint::SamplerParameterf => 364,
            EntryPoint::SamplerParameterfv => 365,
            EntryPoint::SamplerParameteri => 366,
            EntryPoint::SamplerParameteriv => 367,
            EntryPoint::Scissor => 368,
            EntryPoint::ScissorArrayv => 369,
            EntryPoint::ScissorIndexed => 370,
            EntryPoint::ScissorIndexedv => 371,
            EntryPoint::SecondaryColorP3ui => 372,
            EntryPoint::SecondaryColorP3uiv => 373,
            EntryPoint::ShaderBinary => 374,
            EntryPoint::ShaderSource => 375,
            EntryPoint::ShaderStorageBlockBinding => 376,
            EntryPoint::StencilFunc => 377,
            EntryPoint::StencilFuncSeparate => 378,
            EntryPoint::StencilMask => 379,
            EntryPoint::StencilMaskSeparate => 380,
            EntryPoint::StencilOp => 381,
            EntryPoint::StencilOpSeparate => 382,
            EntryPoint::TexBuffer => 383,
            EntryPoint::TexBufferRange => 384,
            EntryPoint::TexCoordP1ui => 385,
            EntryPoint::TexCoordP1uiv => 386,
            EntryPoint::TexCoordP2ui => 387,
            EntryPoint::TexCoordP2uiv => 388,
            EntryPoint::TexCoordP3ui => 389,
            EntryPoint::TexCoordP3uiv => 390,
            EntryPoint::TexCoordP4ui => 391,
            EntryPoint::TexCoordP4uiv => 392,
            EntryPoint::TexImage1D => 393,
            EntryPoint::TexImage2D => 394,
            EntryPoint::TexImage2DMultisample => 395,
            EntryPoint::TexImage3D => 396,
            EntryPoint::TexImage3DMultisample => 397,
            EntryPoint::TexParameterIiv => 398,
            EntryPoint::TexParameterIuiv => 399,
            EntryPoint::TexParameterf => 400,
            EntryPoint::TexParameterfv => 401,
            EntryPoint::TexParameteri => 402,
            EntryPoint::TexParameteriv => 403,
            EntryPoint::TexStorage1D => 404,
            EntryPoint::TexStorage2D => 405,
            EntryPoint::TexStorage2DMultisample => 406,
            EntryPoint::TexStorage3D => 407,
            EntryPoint::TexStorage3DMultisample => 408,
            EntryPoint::TexSubImage1D => 409,
            EntryPoint::TexSubImage2D => 410,
            EntryPoint::TexSubImage3D => 411,
            EntryPoint::TextureView => 412,
            EntryPoint::TransformFeedbackVaryings => 413,
            EntryPoint::Uniform1d => 414,
            EntryPoint::Uniform1dv => 415,
            EntryPoint::Uniform1f => 416,
            EntryPoint::Uniform1fv => 417,
            EntryPoint::Uniform1i => 418,
            EntryPoint::Uniform1iv => 419,
            EntryPoint::Uniform1ui => 420,
            EntryPoint::Uniform1uiv => 421,
            EntryPoint::Uniform2d => 422,
            EntryPoint::Uniform2dv => 423,
            EntryPoint::Uniform2f => 424,
            EntryPoint::Uniform2fv => 425,
            EntryPoint::Uniform2i => 426,
            EntryPoint::Uniform2iv => 427,
            EntryPoint::Uniform2ui => 428,
            EntryPoint::Uniform2uiv => 429,
            EntryPoint::Uniform3d => 430,
            EntryPoint::Uniform3dv => 431,
            EntryPoint::Uniform3f => 432,
            EntryPoint::Uniform3fv => 433,
            EntryPoint::Uniform3i => 434,
            EntryPoint::Uniform3iv => 435,
            EntryPoint::Uniform3ui => 436,
            EntryPoint::Uniform3uiv => 437,
            EntryPoint::Uniform4d => 438,
            EntryPoint::Uniform4dv => 439,
            EntryPoint::Uniform4f => 440,
            EntryPoint::Uniform4fv => 441,
            EntryPoint::Uniform4i => 442,
            EntryPoint::Uniform4iv => 443,
            EntryPoint::Uniform4ui => 444,
            EntryPoint::Uniform4uiv => 445,
            EntryPoint::UniformBlockBinding => 446,
            EntryPoint::UniformMatrix2dv => 447,
            EntryPoint::UniformMatrix2fv => 448,
            EntryPoint::UniformMatrix2x3dv => 449,
            EntryPoint::UniformMatrix2x3fv => 450,
            EntryPoint::UniformMatrix2x4dv => 451,
            EntryPoint::UniformMatrix2x4fv => 452,
            EntryPoint::UniformMatrix3dv => 453,
            EntryPoint::UniformMatrix3fv => 454,
            EntryPoint::UniformMatrix3x2dv => 455,
            EntryPoint::UniformMatrix3x2fv => 456,
            EntryPoint::UniformMatrix3x4dv => 457,
            EntryPoint::UniformMatrix3x4fv => 458,
            EntryPoint::UniformMatrix4dv => 459,
            EntryPoint::UniformMatrix4fv => 460,
            EntryPoint::UniformMatrix4x2dv => 461,
            EntryPoint::UniformMatrix4x2fv => 462,
            EntryPoint::UniformMatrix4x3dv => 463,
            EntryPoint::UniformMatrix4x3fv => 464,
            EntryPoint::UniformSubroutinesuiv => 465,
            EntryPoint::UnmapBuffer => 466,
            EntryPoint::UseProgram => 467,
            EntryPoint::UseProgramStages => 468,
            EntryPoint::ValidateProgram => 469,
            EntryPoint::ValidateProgramPipeline => 470,
            EntryPoint::VertexAttrib1d => 471,
            EntryPoint::VertexAttrib1dv => 472,
            EntryPoint::VertexAttrib1f => 473,
            EntryPoint::VertexAttrib1fv => 474,
            EntryPoint::VertexAttrib1s => 475,
            EntryPoint::VertexAttrib1sv => 476,
            EntryPoint::VertexAttrib2d => 477,
            EntryPoint::VertexAttrib2dv => 478,
            EntryPoint::VertexAttrib2f => 479,
            EntryPoint::VertexAttrib2fv => 480,
            EntryPoint::VertexAttrib2s => 481,
            EntryPoint::VertexAttrib2sv => 482,
            EntryPoint::VertexAttrib3d => 483,
            EntryPoint::VertexAttrib3dv => 484,
            EntryPoint::VertexAttrib3f => 485,
            EntryPoint::VertexAttrib3fv => 486,
            EntryPoint::VertexAttrib3s => 487,
            EntryPoint::VertexAttrib3sv => 488,
            EntryPoint::VertexAttrib4Nbv => 489,
            EntryPoint::VertexAttrib4Niv => 490,
            EntryPoint::VertexAttrib4Nsv => 491,
            EntryPoint::VertexAttrib4Nub => 492,
            EntryPoint::VertexAttrib4Nubv => 493,
            EntryPoint::VertexAttrib4Nuiv => 494,
            EntryPoint::VertexAttrib4Nusv => 495,
            EntryPoint::VertexAttrib4bv => 496,
            EntryPoint::VertexAttrib4d => 497,
            EntryPoint::VertexAttrib4dv => 498,
            EntryPoint::VertexAttrib4f => 499,
            EntryPoint::VertexAttrib4fv => 500,
            EntryPoint::VertexAttrib4iv => 501,
            EntryPoint::VertexAttrib4s => 502,
            EntryPoint::VertexAttrib4sv => 503,
            EntryPoint::VertexAttrib4ubv => 504,
            EntryPoint::VertexAttrib4uiv => 505,
            EntryPoint::VertexAttrib4usv => 506,
            EntryPoint::VertexAttribBinding => 507,
            EntryPoint::VertexAttribDivisor => 508,
            EntryPoint::VertexAttribFormat => 509,
            EntryPoint::VertexAttribI1i => 510,
            EntryPoint::VertexAttribI1iv => 511,
            EntryPoint::VertexAttribI1ui => 512,
            EntryPoint::VertexAttribI1uiv => 513,
            EntryPoint::VertexAttribI2i => 514,
            EntryPoint::VertexAttribI2iv => 515,
            EntryPoint::VertexAttribI2ui => 516,
            EntryPoint::VertexAttribI2uiv => 517,
            EntryPoint::VertexAttribI3i => 518,
            EntryPoint::VertexAttribI3iv => 519,
            EntryPoint::VertexAttribI3ui => 520,
            EntryPoint::VertexAttribI3uiv => 521,
            EntryPoint::VertexAttribI4bv => 522,
            EntryPoint::VertexAttribI4i => 523,
            EntryPoint::VertexAttribI4iv => 524,
            EntryPoint::VertexAttribI4sv => 525,
            EntryPoint::VertexAttribI4ubv => 526,
            EntryPoint::VertexAttribI4ui => 527,
            EntryPoint::VertexAttribI4uiv => 528,
            EntryPoint::VertexAttribI4usv => 529,
            EntryPoint::VertexAttribIFormat => 530,
            EntryPoint::VertexAttribIPointer => 531,
            EntryPoint::VertexAttribL1d => 532,
            EntryPoint::VertexAttribL1dv => 533,
            EntryPoint::VertexAttribL2d => 534,
            EntryPoint::VertexAttribL2dv => 535,
            EntryPoint::VertexAttribL3d => 536,
            EntryPoint::VertexAttribL3dv => 537,
            EntryPoint::VertexAttribL4d => 538,
            EntryPoint::VertexAttribL4dv => 539,
            EntryPoint::VertexAttribLFormat => 540,
            EntryPoint::VertexAttribLPointer => 541,
            EntryPoint::VertexAttribP1ui => 542,
            EntryPoint::VertexAttribP1uiv => 543,
            EntryPoint::VertexAttribP2ui => 544,
            EntryPoint::VertexAttribP2uiv => 545,
            EntryPoint::VertexAttribP3ui => 546,
            EntryPoint::VertexAttribP3uiv => 547,
            EntryPoint::VertexAttribP4ui => 548,
            EntryPoint::VertexAttribP4uiv => 549,
            EntryPoint::VertexAttribPointer => 550,
            EntryPoint::VertexBindingDivisor => 551,
            EntryPoint::VertexP2ui => 552,
            EntryPoint::VertexP2uiv => 553,
            EntryPoint::VertexP3ui => 554,
            EntryPoint::VertexP3uiv => 555,
            EntryPoint::VertexP4ui => 556,
            EntryPoint::VertexP4uiv => 557,
            EntryPoint::Viewport => 558,
            EntryPoint::ViewportArrayv => 559,
            EntryPoint::ViewportIndexedf => 560,
            EntryPoint::ViewportIndexedfv => 561,
            EntryPoint::WaitSync => 562,
        }
    }

    /// Every entry point stands in `ENTRY_POINTS`, at its own position.
    pub proof fn lemma_listed(self)
        ensures
            0 <= self.spec_index() < ENTRY_POINT_COUNT,
            ENTRY_POINTS[self.spec_index()] == self,
    {
    }

    /// No two entry points share a position.
    pub proof fn lemma_index_injective(a: EntryPoint, b: EntryPoint)
        requires
            a.spec_index() == b.spec_index(),
        ensures
            a == b,
    {
        a.lemma_listed();
        b.lemma_listed();
    }
}

} // verus!
