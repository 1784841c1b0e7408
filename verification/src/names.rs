//! The names of the entry points: the short one that identifies an entry
//! point to a reader, and the symbol under which the native library knows it.

use crate::entry::EntryPoint;
use vstd::prelude::*;

verus! {

/// The short name of each entry point, at the entry point's position.
pub const NAMES: [&'static str; 563] = [
    "ActiveShaderProgram",
    "ActiveTexture",
    "AttachShader",
    "BeginConditionalRender",
    "BeginQuery",
    "BeginQueryIndexed",
    "BeginTransformFeedback",
    "BindAttribLocation",
    "BindBuffer",
    "BindBufferBase",
    "BindBufferRange",
    "BindFragDataLocation",
    "BindFragDataLocationIndexed",
    "BindFramebuffer",
    "BindImageTexture",
    "BindProgramPipeline",
    "BindRenderbuffer",
    "BindSampler",
    "BindTexture",
    "BindTransformFeedback",
    "BindVertexArray",
    "BindVertexBuffer",
    "BlendColor",
    "BlendEquation",
    "BlendEquationSeparate",
    "BlendEquationSeparatei",
    "BlendEquationi",
    "BlendFunc",
    "BlendFuncSeparate",
    "BlendFuncSeparatei",
    "BlendFunci",
    "BlitFramebuffer",
    "BufferData",
    "BufferSubData",
    "CheckFramebufferStatus",
    "ClampColor",
    "Clear",
    "ClearBufferData",
    "ClearBufferSubData",
    "ClearBufferfi",
    "ClearBufferfv",
    "ClearBufferiv",
    "ClearBufferuiv",
    "ClearColor",
    "ClearDepth",
    "ClearDepthf",
    "ClearStencil",
    "ClientWaitSync",
    "ColorMask",
    "ColorMaski",
    "ColorP3ui",
    "ColorP3uiv",
    "ColorP4ui",
    "ColorP4uiv",
    "CompileShader",
    "CompressedTexImage1D",
    "CompressedTexImage2D",
    "CompressedTexImage3D",
    "CompressedTexSubImage1D",
    "CompressedTexSubImage2D",
    "CompressedTexSubImage3D",
    "CopyBufferSubData",
    "CopyImageSubData",
    "CopyTexImage1D",
    "CopyTexImage2D",
    "CopyTexSubImage1D",
    "CopyTexSubImage2D",
    "CopyTexSubImage3D",
    "CreateProgram",
    "CreateShader",
    "CreateShaderProgramv",
    "CullFace",
    "DebugMessageCallback",
    "DebugMessageControl",
    "DebugMessageInsert",
    "DeleteBuffers",
    "DeleteFramebuffers",
    "DeleteProgram",
    "DeleteProgramPipelines",
    "DeleteQueries",
    "DeleteRenderbuffers",
    "DeleteSamplers",
    "DeleteShader",
    "DeleteSync",
    "DeleteTextures",
    "DeleteTransformFeedbacks",
    "DeleteVertexArrays",
    "DepthFunc",
    "DepthMask",
    "DepthRange",
    "DepthRangeArrayv",
    "DepthRangeIndexed",
    "DepthRangef",
    "DetachShader",
    "Disable",
    "DisableVertexAttribArray",
    "Disablei",
    "DispatchCompute",
    "DispatchComputeIndirect",
    "DrawArrays",
    "DrawArraysIndirect",
    "DrawArraysInstanced",
    "DrawArraysInstancedBaseInstance",
    "DrawBuffer",
    "DrawBuffers",
    "DrawElements",
    "DrawElementsBaseVertex",
    "DrawElementsIndirect",
    "DrawElementsInstanced",
    "DrawElementsInstancedBaseInstance",
    "DrawElementsInstancedBaseVertex",
    "DrawElementsInstancedBaseVertexBaseInstance",
    "DrawRangeElements",
    "DrawRangeElementsBaseVertex",
    "DrawTransformFeedback",
    "DrawTransformFeedbackInstanced",
    "DrawTransformFeedbackStream",
    "DrawTransformFeedbackStreamInstanced",
    "Enable",
    "EnableVertexAttribArray",
    "Enablei",
    "EndConditionalRender",
    "EndQuery",
    "EndQueryIndexed",
    "EndTransformFeedback",
    "FenceSync",
    "Finish",
    "Flush",
    "FlushMappedBufferRange",
    "FramebufferParameteri",
    "FramebufferRenderbuffer",
    "FramebufferTexture",
    "FramebufferTexture1D",
    "FramebufferTexture2D",
    "FramebufferTexture3D",
    "FramebufferTextureLayer",
    "FrontFace",
    "GenBuffers",
    "GenFramebuffers",
    "GenProgramPipelines",
    "GenQueries",
    "GenRenderbuffers",
    "GenSamplers",
    "GenTextures",
    "GenTransformFeedbacks",
    "GenVertexArrays",
    "GenerateMipmap",
    "GetActiveAtomicCounterBufferiv",
    "GetActiveAttrib",
    "GetActiveSubroutineName",
    "GetActiveSubroutineUniformName",
    "GetActiveSubroutineUniformiv",
    "GetActiveUniform",
    "GetActiveUniformBlockName",
    "GetActiveUniformBlockiv",
    "GetActiveUniformName",
    "GetActiveUniformsiv",
    "GetAttachedShaders",
    "GetAttribLocation",
    "GetBooleani_v",
    "GetBooleanv",
    "GetBufferParameteri64v",
    "GetBufferParameteriv",
    "GetBufferPointerv",
    "GetBufferSubData",
    "GetCompressedTexImage",
    "GetDebugMessageLog",
    "GetDoublei_v",
    "GetDoublev",
    "GetError",
    "GetFloati_v",
    "GetFloatv",
    "GetFragDataIndex",
    "GetFragDataLocation",
    "GetFramebufferAttachmentParameteriv",
    "GetFramebufferParameteriv",
    "GetInteger64i_v",
    "GetInteger64v",
    "GetIntegeri_v",
    "GetIntegerv",
    "GetInternalformati64v",
    "GetInternalformativ",
    "GetMultisamplefv",
    "GetObjectLabel",
    "GetObjectPtrLabel",
    "GetProgramBinary",
    "GetProgramInfoLog",
    "GetProgramInterfaceiv",
    "GetProgramPipelineInfoLog",
    "GetProgramPipelineiv",
    "GetProgramResourceIndex",
    "GetProgramResourceLocation",
    "GetProgramResourceLocationIndex",
    "GetProgramResourceName",
    "GetProgramResourceiv",
    "GetProgramStageiv",
    "GetProgramiv",
    "GetQueryIndexediv",
    "GetQueryObjecti64v",
    "GetQueryObjectiv",
    "GetQueryObjectui64v",
    "GetQueryObjectuiv",
    "GetQueryiv",
    "GetRenderbufferParameteriv",
    "GetSamplerParameterIiv",
    "GetSamplerParameterIuiv",
    "GetSamplerParameterfv",
    "GetSamplerParameteriv",
    "GetShaderInfoLog",
    "GetShaderPrecisionFormat",
    "GetShaderSource",
    "GetShaderiv",
    "GetString",
    "GetStringi",
    "GetSubroutineIndex",
    "GetSubroutineUniformLocation",
    "GetSynciv",
    "GetTexImage",
    "GetTexLevelParameterfv",
    "GetTexLevelParameteriv",
    "GetTexParameterIiv",
    "GetTexParameterIuiv",
    "GetTexParameterfv",
    "GetTexParameteriv",
    "GetTransformFeedbackVarying",
    "GetUniformBlockIndex",
    "GetUniformIndices",
    "GetUniformLocation",
    "GetUniformSubroutineuiv",
    "GetUniformdv",
    "GetUniformfv",
    "GetUniformiv",
    "GetUniformuiv",
    "GetVertexAttribIiv",
    "GetVertexAttribIuiv",
    "GetVertexAttribLdv",
    "GetVertexAttribPointerv",
    "GetVertexAttribdv",
    "GetVertexAttribfv",
    "GetVertexAttribiv",
    "Hint",
    "InvalidateBufferData",
    "InvalidateBufferSubData",
    "InvalidateFramebuffer",
    "InvalidateSubFramebuffer",
    "InvalidateTexImage",
    "InvalidateTexSubImage",
    "IsBuffer",
    "IsEnabled",
    "IsEnabledi",
    "IsFramebuffer",
    "IsProgram",
    "IsProgramPipeline",
    "IsQuery",
    "IsRenderbuffer",
    "IsSampler",
    "IsShader",
    "IsSync",
    "IsTexture",
    "IsTransformFeedback",
    "IsVertexArray",
    "LineWidth",
    "LinkProgram",
    "LogicOp",
    "MapBuffer",
    "MapBufferRange",
    "MemoryBarrier",
    "MinSampleShading",
    "MultiDrawArrays",
    "MultiDrawArraysIndirect",
    "MultiDrawElements",
    "MultiDrawElementsBaseVertex",
    "MultiDrawElementsIndirect",
    "MultiTexCoordP1ui",
    "MultiTexCoordP1uiv",
    "MultiTexCoordP2ui",
    "MultiTexCoordP2uiv",
    "MultiTexCoordP3ui",
    "MultiTexCoordP3uiv",
    "MultiTexCoordP4ui",
    "MultiTexCoordP4uiv",
    "NormalP3ui",
    "NormalP3uiv",
    "ObjectLabel",
    "ObjectPtrLabel",
    "PatchParameterfv",
    "PatchParameteri",
    "PauseTransformFeedback",
    "PixelStoref",
    "PixelStorei",
    "PointParameterf",
    "PointParameterfv",
    "PointParameteri",
    "PointParameteriv",
    "PointSize",
    "PolygonMode",
    "PolygonOffset",
    "PopDebugGroup",
    "PrimitiveRestartIndex",
    "ProgramBinary",
    "ProgramParameteri",
    "ProgramUniform1d",
    "ProgramUniform1dv",
    "ProgramUniform1f",
    "ProgramUniform1fv",
    "ProgramUniform1i",
    "ProgramUniform1iv",
    "ProgramUniform1ui",
    "ProgramUniform1uiv",
    "ProgramUniform2d",
    "ProgramUniform2dv",
    "ProgramUniform2f",
    "ProgramUniform2fv",
    "ProgramUniform2i",
    "ProgramUniform2iv",
    "ProgramUniform2ui",
    "ProgramUniform2uiv",
    "ProgramUniform3d",
    "ProgramUniform3dv",
    "ProgramUniform3f",
    "ProgramUniform3fv",
    "ProgramUniform3i",
    "ProgramUniform3iv",
    "ProgramUniform3ui",
    "ProgramUniform3uiv",
    "ProgramUniform4d",
    "ProgramUniform4dv",
    "ProgramUniform4f",
    "ProgramUniform4fv",
    "ProgramUniform4i",
    "ProgramUniform4iv",
    "ProgramUniform4ui",
    "ProgramUniform4uiv",
    "ProgramUniformMatrix2dv",
    "ProgramUniformMatrix2fv",
    "ProgramUniformMatrix2x3dv",
    "ProgramUniformMatrix2x3fv",
    "ProgramUniformMatrix2x4dv",
    "ProgramUniformMatrix2x4fv",
    "ProgramUniformMatrix3dv",
    "ProgramUniformMatrix3fv",
    "ProgramUniformMatrix3x2dv",
    "ProgramUniformMatrix3x2fv",
    "ProgramUniformMatrix3x4dv",
    "ProgramUniformMatrix3x4fv",
    "ProgramUniformMatrix4dv",
    "ProgramUniformMatrix4fv",
    "ProgramUniformMatrix4x2dv",
    "ProgramUniformMatrix4x2fv",
    "ProgramUniformMatrix4x3dv",
    "ProgramUniformMatrix4x3fv",
    "ProvokingVertex",
    "PushDebugGroup",
    "QueryCounter",
    "ReadBuffer",
    "ReadPixels",
    "ReleaseShaderCompiler",
    "RenderbufferStorage",
    "RenderbufferStorageMultisample",
    "ResumeTransformFeedback",
    "SampleCoverage",
    "SampleMaski",
    "SamplerParameterIiv",
    "SamplerParameterIuiv",
    "SamplerParameterf",
    "SamplerParameterfv",
    "SamplerParameteri",
    "SamplerParameteriv",
    "Scissor",
    "ScissorArrayv",
    "ScissorIndexed",
    "ScissorIndexedv",
    "SecondaryColorP3ui",
    "SecondaryColorP3uiv",
    "ShaderBinary",
    "ShaderSource",
    "ShaderStorageBlockBinding",
    "StencilFunc",
    "StencilFuncSeparate",
    "StencilMask",
    "StencilMaskSeparate",
    "StencilOp",
    "StencilOpSeparate",
    "TexBuffer",
    "TexBufferRange",
    "TexCoordP1ui",
    "TexCoordP1uiv",
    "TexCoordP2ui",
    "TexCoordP2uiv",
    "TexCoordP3ui",
    "TexCoordP3uiv",
    "TexCoordP4ui",
    "TexCoordP4uiv",
    "TexImage1D",
    "TexImage2D",
    "TexImage2DMultisample",
    "TexImage3D",
    "TexImage3DMultisample",
    "TexParameterIiv",
    "TexParameterIuiv",
    "TexParameterf",
    "TexParameterfv",
    "TexParameteri",
    "TexParameteriv",
    "TexStorage1D",
    "TexStorage2D",
    "TexStorage2DMultisample",
    "TexStorage3D",
    "TexStorage3DMultisample",
    "TexSubImage1D",
    "TexSubImage2D",
    "TexSubImage3D",
    "TextureView",
    "TransformFeedbackVaryings",
    "Uniform1d",
    "Uniform1dv",
    "Uniform1f",
    "Uniform1fv",
    "Uniform1i",
    "Uniform1iv",
    "Uniform1ui",
    "Uniform1uiv",
    "Uniform2d",
    "Uniform2dv",
    "Uniform2f",
    "Uniform2fv",
    "Uniform2i",
    "Uniform2iv",
    "Uniform2ui",
    "Uniform2uiv",
    "Uniform3d",
    "Uniform3dv",
    "Uniform3f",
    "Uniform3fv",
    "Uniform3i",
    "Uniform3iv",
    "Uniform3ui",
    "Uniform3uiv",
    "Uniform4d",
    "Uniform4dv",
    "Uniform4f",
    "Uniform4fv",
    "Uniform4i",
    "Uniform4iv",
    "Uniform4ui",
    "Uniform4uiv",
    "UniformBlockBinding",
    "UniformMatrix2dv",
    "UniformMatrix2fv",
    "UniformMatrix2x3dv",
    "UniformMatrix2x3fv",
    "UniformMatrix2x4dv",
    "UniformMatrix2x4fv",
    "UniformMatrix3dv",
    "UniformMatrix3fv",
    "UniformMatrix3x2dv",
    "UniformMatrix3x2fv",
    "UniformMatrix3x4dv",
    "UniformMatrix3x4fv",
    "UniformMatrix4dv",
    "UniformMatrix4fv",
    "UniformMatrix4x2dv",
    "UniformMatrix4x2fv",
    "UniformMatrix4x3dv",
    "UniformMatrix4x3fv",
    "UniformSubroutinesuiv",
    "UnmapBuffer",
    "UseProgram",
    "UseProgramStages",
    "ValidateProgram",
    "ValidateProgramPipeline",
    "VertexAttrib1d",
    "VertexAttrib1dv",
    "VertexAttrib1f",
    "VertexAttrib1fv",
    "VertexAttrib1s",
    "VertexAttrib1sv",
    "VertexAttrib2d",
    "VertexAttrib2dv",
    "VertexAttrib2f",
    "VertexAttrib2fv",
    "VertexAttrib2s",
    "VertexAttrib2sv",
    "VertexAttrib3d",
    "VertexAttrib3dv",
    "VertexAttrib3f",
    "VertexAttrib3fv",
    "VertexAttrib3s",
    "VertexAttrib3sv",
    "VertexAttrib4Nbv",
    "VertexAttrib4Niv",
    "VertexAttrib4Nsv",
    "VertexAttrib4Nub",
    "VertexAttrib4Nubv",
    "VertexAttrib4Nuiv",
    "VertexAttrib4Nusv",
    "VertexAttrib4bv",
    "VertexAttrib4d",
    "VertexAttrib4dv",
    "VertexAttrib4f",
    "VertexAttrib4fv",
    "VertexAttrib4iv",
    "VertexAttrib4s",
    "VertexAttrib4sv",
    "VertexAttrib4ubv",
    "VertexAttrib4uiv",
    "VertexAttrib4usv",
    "VertexAttribBinding",
    "VertexAttribDivisor",
    "VertexAttribFormat",
    "VertexAttribI1i",
    "VertexAttribI1iv",
    "VertexAttribI1ui",
    "VertexAttribI1uiv",
    "VertexAttribI2i",
    "VertexAttribI2iv",
    "VertexAttribI2ui",
    "VertexAttribI2uiv",
    "VertexAttribI3i",
    "VertexAttribI3iv",
    "VertexAttribI3ui",
    "VertexAttribI3uiv",
    "VertexAttribI4bv",
    "VertexAttribI4i",
    "VertexAttribI4iv",
    "VertexAttribI4sv",
    "VertexAttribI4ubv",
    "VertexAttribI4ui",
    "VertexAttribI4uiv",
    "VertexAttribI4usv",
    "VertexAttribIFormat",
    "VertexAttribIPointer",
    "VertexAttribL1d",
    "VertexAttribL1dv",
    "VertexAttribL2d",
    "VertexAttribL2dv",
    "VertexAttribL3d",
    "VertexAttribL3dv",
    "VertexAttribL4d",
    "VertexAttribL4dv",
    "VertexAttribLFormat",
    "VertexAttribLPointer",
    "VertexAttribP1ui",
    "VertexAttribP1uiv",
    "VertexAttribP2ui",
    "VertexAttribP2uiv",
    "VertexAttribP3ui",
    "VertexAttribP3uiv",
    "VertexAttribP4ui",
    "VertexAttribP4uiv",
    "VertexAttribPointer",
    "VertexBindingDivisor",
    "VertexP2ui",
    "VertexP2uiv",
    "VertexP3ui",
    "VertexP3uiv",
    "VertexP4ui",
    "VertexP4uiv",
    "Viewport",
    "ViewportArrayv",
    "ViewportIndexedf",
    "ViewportIndexedfv",
    "WaitSync",
];

/// The symbol of each entry point, at the entry point's position.
pub const SYMBOLS: [&'static str; 563] = [
    "glActiveShaderProgram",
    "glActiveTexture",
    "glAttachShader",
    "glBeginConditionalRender",
    "glBeginQuery",
    "glBeginQueryIndexed",
    "glBeginTransformFeedback",
    "glBindAttribLocation",
    "glBindBuffer",
    "glBindBufferBase",
    "glBindBufferRange",
    "glBindFragDataLocation",
    "glBindFragDataLocationIndexed",
    "glBindFramebuffer",
    "glBindImageTexture",
    "glBindProgramPipeline",
    "glBindRenderbuffer",
    "glBindSampler",
    "glBindTexture",
    "glBindTransformFeedback",
    "glBindVertexArray",
    "glBindVertexBuffer",
    "glBlendColor",
    "glBlendEquation",
    "glBlendEquationSeparate",
    "glBlendEquationSeparatei",
    "glBlendEquationi",
    "glBlendFunc",
    "glBlendFuncSeparate",
    "glBlendFuncSeparatei",
    "glBlendFunci",
    "glBlitFramebuffer",
    "glBufferData",
    "glBufferSubData",
    "glCheckFramebufferStatus",
    "glClampColor",
    "glClear",
    "glClearBufferData",
    "glClearBufferSubData",
    "glClearBufferfi",
    "glClearBufferfv",
    "glClearBufferiv",
    "glClearBufferuiv",
    "glClearColor",
    "glClearDepth",
    "glClearDepthf",
    "glClearStencil",
    "glClientWaitSync",
    "glColorMask",
    "glColorMaski",
    "glColorP3ui",
    "glColorP3uiv",
    "glColorP4ui",
    "glColorP4uiv",
    "glCompileShader",
    "glCompressedTexImage1D",
    "glCompressedTexImage2D",
    "glCompressedTexImage3D",
    "glCompressedTexSubImage1D",
    "glCompressedTexSubImage2D",
    "glCompressedTexSubImage3D",
    "glCopyBufferSubData",
    "glCopyImageSubData",
    "glCopyTexImage1D",
    "glCopyTexImage2D",
    "glCopyTexSubImage1D",
    "glCopyTexSubImage2D",
    "glCopyTexSubImage3D",
    "glCreateProgram",
    "glCreateShader",
    "glCreateShaderProgramv",
    "glCullFace",
    "glDebugMessageCallback",
    "glDebugMessageControl",
    "glDebugMessageInsert",
    "glDeleteBuffers",
    "glDeleteFramebuffers",
    "glDeleteProgram",
    "glDeleteProgramPipelines",
    "glDeleteQueries",
    "glDeleteRenderbuffers",
    "glDeleteSamplers",
    "glDeleteShader",
    "glDeleteSync",
    "glDeleteTextures",
    "glDeleteTransformFeedbacks",
    "glDeleteVertexArrays",
    "glDepthFunc",
    "glDepthMask",
    "glDepthRange",
    "glDepthRangeArrayv",
    "glDepthRangeIndexed",
    "glDepthRangef",
    "glDetachShader",
    "glDisable",
    "glDisableVertexAttribArray",
    "glDisablei",
    "glDispatchCompute",
    "glDispatchComputeIndirect",
    "glDrawArrays",
    "glDrawArraysIndirect",
    "glDrawArraysInstanced",
    "glDrawArraysInstancedBaseInstance",
    "glDrawBuffer",
    "glDrawBuffers",
    "glDrawElements",
    "glDrawElementsBaseVertex",
    "glDrawElementsIndirect",
    "glDrawElementsInstanced",
    "glDrawElementsInstancedBaseInstance",
    "glDrawElementsInstancedBaseVertex",
    "glDrawElementsInstancedBaseVertexBaseInstance",
    "glDrawRangeElements",
    "glDrawRangeElementsBaseVertex",
    "glDrawTransformFeedback",
    "glDrawTransformFeedbackInstanced",
    "glDrawTransformFeedbackStream",
    "glDrawTransformFeedbackStreamInstanced",
    "glEnable",
    "glEnableVertexAttribArray",
    "glEnablei",
    "glEndConditionalRender",
    "glEndQuery",
    "glEndQueryIndexed",
    "glEndTransformFeedback",
    "glFenceSync",
    "glFinish",
    "glFlush",
    "glFlushMappedBufferRange",
    "glFramebufferParameteri",
    "glFramebufferRenderbuffer",
    "glFramebufferTexture",
    "glFramebufferTexture1D",
    "glFramebufferTexture2D",
    "glFramebufferTexture3D",
    "glFramebufferTextureLayer",
    "glFrontFace",
    "glGenBuffers",
    "glGenFramebuffers",
    "glGenProgramPipelines",
    "glGenQueries",
    "glGenRenderbuffers",
    "glGenSamplers",
    "glGenTextures",
    "glGenTransformFeedbacks",
    "glGenVertexArrays",
    "glGenerateMipmap",
    "glGetActiveAtomicCounterBufferiv",
    "glGetActiveAttrib",
    "glGetActiveSubroutineName",
    "glGetActiveSubroutineUniformName",
    "glGetActiveSubroutineUniformiv",
    "glGetActiveUniform",
    "glGetActiveUniformBlockName",
    "glGetActiveUniformBlockiv",
    "glGetActiveUniformName",
    "glGetActiveUniformsiv",
    "glGetAttachedShaders",
    "glGetAttribLocation",
    "glGetBooleani_v",
    "glGetBooleanv",
    "glGetBufferParameteri64v",
    "glGetBufferParameteriv",
    "glGetBufferPointerv",
    "glGetBufferSubData",
    "glGetCompressedTexImage",
    "glGetDebugMessageLog",
    "glGetDoublei_v",
    "glGetDoublev",
    "glGetError",
    "glGetFloati_v",
    "glGetFloatv",
    "glGetFragDataIndex",
    "glGetFragDataLocation",
    "glGetFramebufferAttachmentParameteriv",
    "glGetFramebufferParameteriv",
    "glGetInteger64i_v",
    "glGetInteger64v",
    "glGetIntegeri_v",
    "glGetIntegerv",
    "glGetInternalformati64v",
    "glGetInternalformativ",
    "glGetMultisamplefv",
    "glGetObjectLabel",
    "glGetObjectPtrLabel",
    "glGetProgramBinary",
    "glGetProgramInfoLog",
    "glGetProgramInterfaceiv",
    "glGetProgramPipelineInfoLog",
    "glGetProgramPipelineiv",
    "glGetProgramResourceIndex",
    "glGetProgramResourceLocation",
    "glGetProgramResourceLocationIndex",
    "glGetProgramResourceName",
    "glGetProgramResourceiv",
    "glGetProgramStageiv",
    "glGetProgramiv",
    "glGetQueryIndexediv",
    "glGetQueryObjecti64v",
    "glGetQueryObjectiv",
    "glGetQueryObjectui64v",
    "glGetQueryObjectuiv",
    "glGetQueryiv",
    "glGetRenderbufferParameteriv",
    "glGetSamplerParameterIiv",
    "glGetSamplerParameterIuiv",
    "glGetSamplerParameterfv",
    "glGetSamplerParameteriv",
    "glGetShaderInfoLog",
    "glGetShaderPrecisionFormat",
    "glGetShaderSource",
    "glGetShaderiv",
    "glGetString",
    "glGetStringi",
    "glGetSubroutineIndex",
    "glGetSubroutineUniformLocation",
    "glGetSynciv",
    "glGetTexImage",
    "glGetTexLevelParameterfv",
    "glGetTexLevelParameteriv",
    "glGetTexParameterIiv",
    "glGetTexParameterIuiv",
    "glGetTexParameterfv",
    "glGetTexParameteriv",
    "glGetTransformFeedbackVarying",
    "glGetUniformBlockIndex",
    "glGetUniformIndices",
    "glGetUniformLocation",
    "glGetUniformSubroutineuiv",
    "glGetUniformdv",
    "glGetUniformfv",
    "glGetUniformiv",
    "glGetUniformuiv",
    "glGetVertexAttribIiv",
    "glGetVertexAttribIuiv",
    "glGetVertexAttribLdv",
    "glGetVertexAttribPointerv",
    "glGetVertexAttribdv",
    "glGetVertexAttribfv",
    "glGetVertexAttribiv",
    "glHint",
    "glInvalidateBufferData",
    "glInvalidateBufferSubData",
    "glInvalidateFramebuffer",
    "glInvalidateSubFramebuffer",
    "glInvalidateTexImage",
    "glInvalidateTexSubImage",
    "glIsBuffer",
    "glIsEnabled",
    "glIsEnabledi",
    "glIsFramebuffer",
    "glIsProgram",
    "glIsProgramPipeline",
    "glIsQuery",
    "glIsRenderbuffer",
    "glIsSampler",
    "glIsShader",
    "glIsSync",
    "glIsTexture",
    "glIsTransformFeedback",
    "glIsVertexArray",
    "glLineWidth",
    "glLinkProgram",
    "glLogicOp",
    "glMapBuffer",
    "glMapBufferRange",
    "glMemoryBarrier",
    "glMinSampleShading",
    "glMultiDrawArrays",
    "glMultiDrawArraysIndirect",
    "glMultiDrawElements",
    "glMultiDrawElementsBaseVertex",
    "glMultiDrawElementsIndirect",
    "glMultiTexCoordP1ui",
    "glMultiTexCoordP1uiv",
    "glMultiTexCoordP2ui",
    "glMultiTexCoordP2uiv",
    "glMultiTexCoordP3ui",
    "glMultiTexCoordP3uiv",
    "glMultiTexCoordP4ui",
    "glMultiTexCoordP4uiv",
    "glNormalP3ui",
    "glNormalP3uiv",
    "glObjectLabel",
    "glObjectPtrLabel",
    "glPatchParameterfv",
    "glPatchParameteri",
    "glPauseTransformFeedback",
    "glPixelStoref",
    "glPixelStorei",
    "glPointParameterf",
    "glPointParameterfv",
    "glPointParameteri",
    "glPointParameteriv",
    "glPointSize",
    "glPolygonMode",
    "glPolygonOffset",
    "glPopDebugGroup",
    "glPrimitiveRestartIndex",
    "glProgramBinary",
    "glProgramParameteri",
    "glProgramUniform1d",
    "glProgramUniform1dv",
    "glProgramUniform1f",
    "glProgramUniform1fv",
    "glProgramUniform1i",
    "glProgramUniform1iv",
    "glProgramUniform1ui",
    "glProgramUniform1uiv",
    "glProgramUniform2d",
    "glProgramUniform2dv",
    "glProgramUniform2f",
    "glProgramUniform2fv",
    "glProgramUniform2i",
    "glProgramUniform2iv",
    "glProgramUniform2ui",
    "glProgramUniform2uiv",
    "glProgramUniform3d",
    "glProgramUniform3dv",
    "glProgramUniform3f",
    "glProgramUniform3fv",
    "glProgramUniform3i",
    "glProgramUniform3iv",
    "glProgramUniform3ui",
    "glProgramUniform3uiv",
    "glProgramUniform4d",
    "glProgramUniform4dv",
    "glProgramUniform4f",
    "glProgramUniform4fv",
    "glProgramUniform4i",
    "glProgramUniform4iv",
    "glProgramUniform4ui",
    "glProgramUniform4uiv",
    "glProgramUniformMatrix2dv",
    "glProgramUniformMatrix2fv",
    "glProgramUniformMatrix2x3dv",
    "glProgramUniformMatrix2x3fv",
    "glProgramUniformMatrix2x4dv",
    "glProgramUniformMatrix2x4fv",
    "glProgramUniformMatrix3dv",
    "glProgramUniformMatrix3fv",
    "glProgramUniformMatrix3x2dv",
    "glProgramUniformMatrix3x2fv",
    "glProgramUniformMatrix3x4dv",
    "glProgramUniformMatrix3x4fv",
    "glProgramUniformMatrix4dv",
    "glProgramUniformMatrix4fv",
    "glProgramUniformMatrix4x2dv",
    "glProgramUniformMatrix4x2fv",
    "glProgramUniformMatrix4x3dv",
    "glProgramUniformMatrix4x3fv",
    "glProvokingVertex",
    "glPushDebugGroup",
    "glQueryCounter",
    "glReadBuffer",
    "glReadPixels",
    "glReleaseShaderCompiler",
    "glRenderbufferStorage",
    "glRenderbufferStorageMultisample",
    "glResumeTransformFeedback",
    "glSampleCoverage",
    "glSampleMaski",
    "glSamplerParameterIiv",
    "glSamplerParameterIuiv",
    "glSamplerParameterf",
    "glSamplerParameterfv",
    "glSamplerParameteri",
    "glSamplerParameteriv",
    "glScissor",
    "glScissorArrayv",
    "glScissorIndexed",
    "glScissorIndexedv",
    "glSecondaryColorP3ui",
    "glSecondaryColorP3uiv",
    "glShaderBinary",
    "glShaderSource",
    "glShaderStorageBlockBinding",
    "glStencilFunc",
    "glStencilFuncSeparate",
    "glStencilMask",
    "glStencilMaskSeparate",
    "glStencilOp",
    "glStencilOpSeparate",
    "glTexBuffer",
    "glTexBufferRange",
    "glTexCoordP1ui",
    "glTexCoordP1uiv",
    "glTexCoordP2ui",
    "glTexCoordP2uiv",
    "glTexCoordP3ui",
    "glTexCoordP3uiv",
    "glTexCoordP4ui",
    "glTexCoordP4uiv",
    "glTexImage1D",
    "glTexImage2D",
    "glTexImage2DMultisample",
    "glTexImage3D",
    "glTexImage3DMultisample",
    "glTexParameterIiv",
    "glTexParameterIuiv",
    "glTexParameterf",
    "glTexParameterfv",
    "glTexParameteri",
    "glTexParameteriv",
    "glTexStorage1D",
    "glTexStorage2D",
    "glTexStorage2DMultisample",
    "glTexStorage3D",
    "glTexStorage3DMultisample",
    "glTexSubImage1D",
    "glTexSubImage2D",
    "glTexSubImage3D",
    "glTextureView",
    "glTransformFeedbackVaryings",
    "glUniform1d",
    "glUniform1dv",
    "glUniform1f",
    "glUniform1fv",
    "glUniform1i",
    "glUniform1iv",
    "glUniform1ui",
    "glUniform1uiv",
    "glUniform2d",
    "glUniform2dv",
    "glUniform2f",
    "glUniform2fv",
    "glUniform2i",
    "glUniform2iv",
    "glUniform2ui",
    "glUniform2uiv",
    "glUniform3d",
    "glUniform3dv",
    "glUniform3f",
    "glUniform3fv",
    "glUniform3i",
    "glUniform3iv",
    "glUniform3ui",
    "glUniform3uiv",
    "glUniform4d",
    "glUniform4dv",
    "glUniform4f",
    "glUniform4fv",
    "glUniform4i",
    "glUniform4iv",
    "glUniform4ui",
    "glUniform4uiv",
    "glUniformBlockBinding",
    "glUniformMatrix2dv",
    "glUniformMatrix2fv",
    "glUniformMatrix2x3dv",
    "glUniformMatrix2x3fv",
    "glUniformMatrix2x4dv",
    "glUniformMatrix2x4fv",
    "glUniformMatrix3dv",
    "glUniformMatrix3fv",
    "glUniformMatrix3x2dv",
    "glUniformMatrix3x2fv",
    "glUniformMatrix3x4dv",
    "glUniformMatrix3x4fv",
    "glUniformMatrix4dv",
    "glUniformMatrix4fv",
    "glUniformMatrix4x2dv",
    "glUniformMatrix4x2fv",
    "glUniformMatrix4x3dv",
    "glUniformMatrix4x3fv",
    "glUniformSubroutinesuiv",
    "glUnmapBuffer",
    "glUseProgram",
    "glUseProgramStages",
    "glValidateProgram",
    "glValidateProgramPipeline",
    "glVertexAttrib1d",
    "glVertexAttrib1dv",
    "glVertexAttrib1f",
    "glVertexAttrib1fv",
    "glVertexAttrib1s",
    "glVertexAttrib1sv",
    "glVertexAttrib2d",
    "glVertexAttrib2dv",
    "glVertexAttrib2f",
    "glVertexAttrib2fv",
    "glVertexAttrib2s",
    "glVertexAttrib2sv",
    "glVertexAttrib3d",
    "glVertexAttrib3dv",
    "glVertexAttrib3f",
    "glVertexAttrib3fv",
    "glVertexAttrib3s",
    "glVertexAttrib3sv",
    "glVertexAttrib4Nbv",
    "glVertexAttrib4Niv",
    "glVertexAttrib4Nsv",
    "glVertexAttrib4Nub",
    "glVertexAttrib4Nubv",
    "glVertexAttrib4Nuiv",
    "glVertexAttrib4Nusv",
    "glVertexAttrib4bv",
    "glVertexAttrib4d",
    "glVertexAttrib4dv",
    "glVertexAttrib4f",
    "glVertexAttrib4fv",
    "glVertexAttrib4iv",
    "glVertexAttrib4s",
    "glVertexAttrib4sv",
    "glVertexAttrib4ubv",
    "glVertexAttrib4uiv",
    "glVertexAttrib4usv",
    "glVertexAttribBinding",
    "glVertexAttribDivisor",
    "glVertexAttribFormat",
    "glVertexAttribI1i",
    "glVertexAttribI1iv",
    "glVertexAttribI1ui",
    "glVertexAttribI1uiv",
    "glVertexAttribI2i",
    "glVertexAttribI2iv",
    "glVertexAttribI2ui",
    "glVertexAttribI2uiv",
    "glVertexAttribI3i",
    "glVertexAttribI3iv",
    "glVertexAttribI3ui",
    "glVertexAttribI3uiv",
    "glVertexAttribI4bv",
    "glVertexAttribI4i",
    "glVertexAttribI4iv",
    "glVertexAttribI4sv",
    "glVertexAttribI4ubv",
    "glVertexAttribI4ui",
    "glVertexAttribI4uiv",
    "glVertexAttribI4usv",
    "glVertexAttribIFormat",
    "glVertexAttribIPointer",
    "glVertexAttribL1d",
    "glVertexAttribL1dv",
    "glVertexAttribL2d",
    "glVertexAttribL2dv",
    "glVertexAttribL3d",
    "glVertexAttribL3dv",
    "glVertexAttribL4d",
    "glVertexAttribL4dv",
    "glVertexAttribLFormat",
    "glVertexAttribLPointer",
    "glVertexAttribP1ui",
    "glVertexAttribP1uiv",
    "glVertexAttribP2ui",
    "glVertexAttribP2uiv",
    "glVertexAttribP3ui",
    "glVertexAttribP3uiv",
    "glVertexAttribP4ui",
    "glVertexAttribP4uiv",
    "glVertexAttribPointer",
    "glVertexBindingDivisor",
    "glVertexP2ui",
    "glVertexP2uiv",
    "glVertexP3ui",
    "glVertexP3uiv",
    "glVertexP4ui",
    "glVertexP4uiv",
    "glViewport",
    "glViewportArrayv",
    "glViewportIndexedf",
    "glViewportIndexedfv",
    "glWaitSync",
];

impl EntryPoint {
    /// The short name of this entry point.
    pub open spec fn spec_name(self) -> &'static str {
        NAMES[self.spec_index()]
    }

    /// The symbol under which the native library knows this entry point.
    pub open spec fn spec_symbol(self) -> &'static str {
        SYMBOLS[self.spec_index()]
    }

    /// The short name of this entry point.
    pub fn name(self) -> (name: &'static str)
        ensures
            name == self.spec_name(),
    {
        NAMES[self.index()]
    }

    /// The symbol under which the native library knows this entry point.
    pub fn symbol(self) -> (symbol: &'static str)
        ensures
            symbol == self.spec_symbol(),
    {
        SYMBOLS[self.index()]
    }

    /// The symbol is the short name behind the prefix `gl`.
    pub proof fn lemma_symbol_is_prefixed_name(self)
        ensures
            self.spec_symbol()@ == "gl"@ + self.spec_name()@,
    {
        self.lemma_listed();
        let i = self.spec_index();
        if i < 16 {
            lemma_prefixed_0(i);
        } else if i < 32 {
            lemma_prefixed_16(i);
        } else if i < 48 {
            lemma_prefixed_32(i);
        } else if i < 64 {
            lemma_prefixed_48(i);
        } else if i < 80 {
            lemma_prefixed_64(i);
        } else if i < 96 {
            lemma_prefixed_80(i);
        } else if i < 112 {
            lemma_prefixed_96(i);
        } else if i < 128 {
            lemma_prefixed_112(i);
        } else if i < 144 {
            lemma_prefixed_128(i);
        } else if i < 160 {
            lemma_prefixed_144(i);
        } else if i < 176 {
            lemma_prefixed_160(i);
        } else if i < 192 {
            lemma_prefixed_176(i);
        } else if i < 208 {
            lemma_prefixed_192(i);
        } else if i < 224 {
            lemma_prefixed_208(i);
        } else if i < 240 {
            lemma_prefixed_224(i);
        } else if i < 256 {
            lemma_prefixed_240(i);
        } else if i < 272 {
            lemma_prefixed_256(i);
        } else if i < 288 {
            lemma_prefixed_272(i);
        } else if i < 304 {
            lemma_prefixed_288(i);
        } else if i < 320 {
            lemma_prefixed_304(i);
        } else if i < 336 {
            lemma_prefixed_320(i);
        } else if i < 352 {
            lemma_prefixed_336(i);
        } else if i < 368 {
            lemma_prefixed_352(i);
        } else if i < 384 {
            lemma_prefixed_368(i);
        } else if i < 400 {
            lemma_prefixed_384(i);
        } else if i < 416 {
            lemma_prefixed_400(i);
        } else if i < 432 {
            lemma_prefixed_416(i);
        } else if i < 448 {
            lemma_prefixed_432(i);
        } else if i < 464 {
            lemma_prefixed_448(i);
        } else if i < 480 {
            lemma_prefixed_464(i);
        } else if i < 496 {
            lemma_prefixed_480(i);
        } else if i < 512 {
            lemma_prefixed_496(i);
        } else if i < 528 {
            lemma_prefixed_512(i);
        } else if i < 544 {
            lemma_prefixed_528(i);
        } else if i < 560 {
            lemma_prefixed_544(i);
        } else if i < 563 {
            lemma_prefixed_560(i);
        }
    }
}

proof fn lemma_prefixed_0(i: int)
    requires
        0 <= i < 16,
    ensures
        SYMBOLS[i]@ == "gl"@ + NAMES[i]@,
{
    reveal_strlit("gl");
    reveal_strlit("ActiveShaderProgram");
    reveal_strlit("glActiveShaderProgram");
    reveal_strlit("ActiveTexture");
    reveal_strlit("glActiveTexture");
    reveal_strlit("AttachShader");
    reveal_strlit("glAttachShader");
    reveal_strlit("BeginConditionalRender");
    reveal_strlit("glBeginConditionalRender");
    reveal_strlit("BeginQuery");
    reveal_strlit("glBeginQuery");
    reveal_strlit("BeginQueryIndexed");
    reveal_strlit("glBeginQueryIndexed");
    reveal_strlit("BeginTransformFeedback");
    reveal_strlit("glBeginTransformFeedback");
    reveal_strlit("BindAttribLocation");
    reveal_strlit("glBindAttribLocation");
    reveal_strlit("BindBuffer");
    reveal_strlit("glBindBuffer");
    reveal_strlit("BindBufferBase");
    reveal_strlit("glBindBufferBase");
    reveal_strlit("BindBufferRange");
    reveal_strlit("glBindBufferRange");
    reveal_strlit("BindFragDataLocation");
    reveal_strlit("glBindFragDataLocation");
    reveal_strlit("BindFragDataLocationIndexed");
    reveal_strlit("glBindFragDataLocationIndexed");
    reveal_strlit("BindFramebuffer");
    reveal_strlit("glBindFramebuffer");
    reveal_strlit("BindImageTexture");
    reveal_strlit("glBindImageTexture");
    reveal_strlit("BindProgramPipeline");
    reveal_strlit("glBindProgramPipeline");
    assert(SYMBOLS[0]@ =~= "gl"@ + NAMES[0]@);
    assert(SYMBOLS[1]@ =~= "gl"@ + NAMES[1]@);
    assert(SYMBOLS[2]@ =~= "gl"@ + NAMES[2]@);
    assert(SYMBOLS[3]@ =~= "gl"@ + NAMES[3]@);
    assert(SYMBOLS[4]@ =~= "gl"@ + NAMES[4]@);
    assert(SYMBOLS[5]@ =~= "gl"@ + NAMES[5]@);
    assert(SYMBOLS[6]@ =~= "gl"@ + NAMES[6]@);
    assert(SYMBOLS[7]@ =~= "gl"@ + NAMES[7]@);
    assert(SYMBOLS[8]@ =~= "gl"@ + NAMES[8]@);
    assert(SYMBOLS[9]@ =~= "gl"@ + NAMES[9]@);
    assert(SYMBOLS[10]@ =~= "gl"@ + NAMES[10]@);
    assert(SYMBOLS[11]@ =~= "gl"@ + NAMES[11]@);
    assert(SYMBOLS[12]@ =~= "gl"@ + NAMES[12]@);
    assert(SYMBOLS[13]@ =~= "gl"@ + NAMES[13]@);
    assert(SYMBOLS[14]@ =~= "gl"@ + NAMES[14]@);
    assert(SYMBOLS[15]@ =~= "gl"@ + NAMES[15]@);
}

proof fn lemma_prefixed_16(i: int)
    requires
        16 <= i < 32,
    ensures
        SYMBOLS[i]@ == "gl"@ + NAMES[i]@,
{
    reveal_strlit("gl");
    reveal_strlit("BindRenderbuffer");
    reveal_strlit("glBindRenderbuffer");
    reveal_strlit("BindSampler");
    reveal_strlit("glBindSampler");
    reveal_strlit("BindTexture");
    reveal_strlit("glBindTexture");
    reveal_strlit("BindTransformFeedback");
    reveal_strlit("glBindTransformFeedback");
    reveal_strlit("BindVertexArray");
    reveal_strlit("glBindVertexArray");
    reveal_strlit("BindVertexBuffer");
    reveal_strlit("glBindVertexBuffer");
    reveal_strlit("BlendColor");
    reveal_strlit("glBlendColor");
    reveal_strlit("BlendEquation");
    reveal_strlit("glBlendEquation");
    reveal_strlit("BlendEquationSeparate");
    reveal_strlit("glBlendEquationSeparate");
    reveal_strlit("BlendEquationSeparatei");
    reveal_strlit("glBlendEquationSeparatei");
    reveal_strlit("BlendEquationi");
    reveal_strlit("glBlendEquationi");
    reveal_strlit("BlendFunc");
    reveal_strlit("glBlendFunc");
    reveal_strlit("BlendFuncSeparate");
    reveal_strlit("glBlendFuncSeparate");
    reveal_strlit("BlendFuncSeparatei");
    reveal_strlit("glBlendFuncSeparatei");
    reveal_strlit("BlendFunci");
    reveal_strlit("glBlendFunci");
    reveal_strlit("BlitFramebuffer");
    reveal_strlit("glBlitFramebuffer");
    assert(SYMBOLS[16]@ =~= "gl"@ + NAMES[16]@);
    assert(SYMBOLS[17]@ =~= "gl"@ + NAMES[17]@);
    assert(SYMBOLS[18]@ =~= "gl"@ + NAMES[18]@);
    assert(SYMBOLS[19]@ =~= "gl"@ + NAMES[19]@);
    assert(SYMBOLS[20]@ =~= "gl"@ + NAMES[20]@);
    assert(SYMBOLS[21]@ =~= "gl"@ + NAMES[21]@);
    assert(SYMBOLS[22]@ =~= "gl"@ + NAMES[22]@);
    assert(SYMBOLS[23]@ =~= "gl"@ + NAMES[23]@);
    assert(SYMBOLS[24]@ =~= "gl"@ + NAMES[24]@);
    assert(SYMBOLS[25]@ =~= "gl"@ + NAMES[25]@);
    assert(SYMBOLS[26]@ =~= "gl"@ + NAMES[26]@);
    assert(SYMBOLS[27]@ =~= "gl"@ + NAMES[27]@);
    assert(SYMBOLS[28]@ =~= "gl"@ + NAMES[28]@);
    assert(SYMBOLS[29]@ =~= "gl"@ + NAMES[29]@);
    assert(SYMBOLS[30]@ =~= "gl"@ + NAMES[30]@);
    assert(SYMBOLS[31]@ =~= "gl"@ + NAMES[31]@);
}

proof fn lemma_prefixed_32(i: int)
    requires
        32 <= i < 48,
    ensures
        SYMBOLS[i]@ == "gl"@ + NAMES[i]@,
{
    reveal_strlit("gl");
    reveal_strlit("BufferData");
    reveal_strlit("glBufferData");
    reveal_strlit("BufferSubData");
    reveal_strlit("glBufferSubData");
    reveal_strlit("CheckFramebufferStatus");
    reveal_strlit("glCheckFramebufferStatus");
    reveal_strlit("ClampColor");
    reveal_strlit("glClampColor");
    reveal_strlit("Clear");
    reveal_strlit("glClear");
    reveal_strlit("ClearBufferData");
    reveal_strlit("glClearBufferData");
    reveal_strlit("ClearBufferSubData");
    reveal_strlit("glClearBufferSubData");
    reveal_strlit("ClearBufferfi");
    reveal_strlit("glClearBufferfi");
    reveal_strlit("ClearBufferfv");
    reveal_strlit("glClearBufferfv");
    reveal_strlit("ClearBufferiv");
    reveal_strlit("glClearBufferiv");
    reveal_strlit("ClearBufferuiv");
    reveal_strlit("glClearBufferuiv");
    reveal_strlit("ClearColor");
    reveal_strlit("glClearColor");
    reveal_strlit("ClearDepth");
    reveal_strlit("glClearDepth");
    reveal_strlit("ClearDepthf");
    reveal_strlit("glClearDepthf");
    reveal_strlit("ClearStencil");
    reveal_strlit("glClearStencil");
    reveal_strlit("ClientWaitSync");
    reveal_strlit("glClientWaitSync");
    assert(SYMBOLS[32]@ =~= "gl"@ + NAMES[32]@);
    assert(SYMBOLS[33]@ =~= "gl"@ + NAMES[33]@);
    assert(SYMBOLS[34]@ =~= "gl"@ + NAMES[34]@);
    assert(SYMBOLS[35]@ =~= "gl"@ + NAMES[35]@);
    assert(SYMBOLS[36]@ =~= "gl"@ + NAMES[36]@);
    assert(SYMBOLS[37]@ =~= "gl"@ + NAMES[37]@);
    assert(SYMBOLS[38]@ =~= "gl"@ + NAMES[38]@);
    assert(SYMBOLS[39]@ =~= "gl"@ + NAMES[39]@);
    assert(SYMBOLS[40]@ =~= "gl"@ + NAMES[40]@);
    assert(SYMBOLS[41]@ =~= "gl"@ + NAMES[41]@);
    assert(SYMBOLS[42]@ =~= "gl"@ + NAMES[42]@);
    assert(SYMBOLS[43]@ =~= "gl"@ + NAMES[43]@);
    assert(SYMBOLS[44]@ =~= "gl"@ + NAMES[44]@);
    assert(SYMBOLS[45]@ =~= "gl"@ + NAMES[45]@);
    assert(SYMBOLS[46]@ =~= "gl"@ + NAMES[46]@);
    assert(SYMBOLS[47]@ =~= "gl"@ + NAMES[47]@);
}

proof fn lemma_prefixed_48(i: int)
    requires
        48 <= i < 64,
    ensures
        SYMBOLS[i]@ == "gl"@ + NAMES[i]@,
{
    reveal_strlit("gl");
    reveal_strlit("ColorMask");
    reveal_strlit("glColorMask");
    reveal_strlit("ColorMaski");
    reveal_strlit("glColorMaski");
    reveal_strlit("ColorP3ui");
    reveal_strlit("glColorP3ui");
    reveal_strlit("ColorP3uiv");
    reveal_strlit("glColorP3uiv");
    reveal_strlit("ColorP4ui");
    reveal_strlit("glColorP4ui");
    reveal_strlit("ColorP4uiv");
    reveal_strlit("glColorP4uiv");
    reveal_strlit("CompileShader");
    reveal_strlit("glCompileShader");
    reveal_strlit("CompressedTexImage1D");
    reveal_strlit("glCompressedTexImage1D");
    reveal_strlit("CompressedTexImage2D");
    reveal_strlit("glCompressedTexImage2D");
    reveal_strlit("CompressedTexImage3D");
    reveal_strlit("glCompressedTexImage3D");
    reveal_strlit("CompressedTexSubImage1D");
    reveal_strlit("glCompressedTexSubImage1D");
    reveal_strlit("CompressedTexSubImage2D");
    reveal_strlit("glCompressedTexSubImage2D");
    reveal_strlit("CompressedTexSubImage3D");
    reveal_strlit("glCompressedTexSubImage3D");
    reveal_strlit("CopyBufferSubData");
    reveal_strlit("glCopyBufferSubData");
    reveal_strlit("CopyImageSubData");
    reveal_strlit("glCopyImageSubData");
    reveal_strlit("CopyTexImage1D");
    reveal_strlit("glCopyTexImage1D");
    assert(SYMBOLS[48]@ =~= "gl"@ + NAMES[48]@);
    assert(SYMBOLS[49]@ =~= "gl"@ + NAMES[49]@);
    assert(SYMBOLS[50]@ =~= "gl"@ + NAMES[50]@);
    assert(SYMBOLS[51]@ =~= "gl"@ + NAMES[51]@);
    assert(SYMBOLS[52]@ =~= "gl"@ + NAMES[52]@);
    assert(SYMBOLS[53]@ =~= "gl"@ + NAMES[53]@);
    assert(SYMBOLS[54]@ =~= "gl"@ + NAMES[54]@);
    assert(SYMBOLS[55]@ =~= "gl"@ + NAMES[55]@);
    assert(SYMBOLS[56]@ =~= "gl"@ + NAMES[56]@);
    assert(SYMBOLS[57]@ =~= "gl"@ + NAMES[57]@);
    assert(SYMBOLS[58]@ =~= "gl"@ + NAMES[58]@);
    assert(SYMBOLS[59]@ =~= "gl"@ + NAMES[59]@);
    assert(SYMBOLS[60]@ =~= "gl"@ + NAMES[60]@);
    assert(SYMBOLS[61]@ =~= "gl"@ + NAMES[61]@);
    assert(SYMBOLS[62]@ =~= "gl"@ + NAMES[62]@);
    assert(SYMBOLS[63]@ =~= "gl"@ + NAMES[63]@);
}

proof fn lemma_prefixed_64(i: int)
    requires
        64 <= i < 80,
    ensures
        SYMBOLS[i]@ == "gl"@ + NAMES[i]@,
{
    reveal_strlit("gl");
    reveal_strlit("CopyTexImage2D");
    reveal_strlit("glCopyTexImage2D");
    reveal_strlit("CopyTexSubImage1D");
    reveal_strlit("glCopyTexSubImage1D");
    reveal_strlit("CopyTexSubImage2D");
    reveal_strlit("glCopyTexSubImage2D");
    reveal_strlit("CopyTexSubImage3D");
    reveal_strlit("glCopyTexSubImage3D");
    reveal_strlit("CreateProgram");
    reveal_strlit("glCreateProgram");
    reveal_strlit("CreateShader");
    reveal_strlit("glCreateShader");
    reveal_strlit("CreateShaderProgramv");
    reveal_strlit("glCreateShaderProgramv");
    reveal_strlit("CullFace");
    reveal_strlit("glCullFace");
    reveal_strlit("DebugMessageCallback");
    reveal_strlit("glDebugMessageCallback");
    reveal_strlit("DebugMessageControl");
    reveal_strlit("glDebugMessageControl");
    reveal_strlit("DebugMessageInsert");
    reveal_strlit("glDebugMessageInsert");
    reveal_strlit("DeleteBuffers");
    reveal_strlit("glDeleteBuffers");
    reveal_strlit("DeleteFramebuffers");
    reveal_strlit("glDeleteFramebuffers");
    reveal_strlit("DeleteProgram");
    reveal_strlit("glDeleteProgram");
    reveal_strlit("DeleteProgramPipelines");
    reveal_strlit("glDeleteProgramPipelines");
    reveal_strlit("DeleteQueries");
    reveal_strlit("glDeleteQueries");
    assert(SYMBOLS[64]@ =~= "gl"@ + NAMES[64]@);
    assert(SYMBOLS[65]@ =~= "gl"@ + NAMES[65]@);
    assert(SYMBOLS[66]@ =~= "gl"@ + NAMES[66]@);
    assert(SYMBOLS[67]@ =~= "gl"@ + NAMES[67]@);
    assert(SYMBOLS[68]@ =~= "gl"@ + NAMES[68]@);
    assert(SYMBOLS[69]@ =~= "gl"@ + NAMES[69]@);
    assert(SYMBOLS[70]@ =~= "gl"@ + NAMES[70]@);
    assert(SYMBOLS[71]@ =~= "gl"@ + NAMES[71]@);
    assert(SYMBOLS[72]@ =~= "gl"@ + NAMES[72]@);
    assert(SYMBOLS[73]@ =~= "gl"@ + NAMES[73]@);
    assert(SYMBOLS[74]@ =~= "gl"@ + NAMES[74]@);
    assert(SYMBOLS[75]@ =~= "gl"@ + NAMES[75]@);
    assert(SYMBOLS[76]@ =~= "gl"@ + NAMES[76]@);
    assert(SYMBOLS[77]@ =~= "gl"@ + NAMES[77]@);
    assert(SYMBOLS[78]@ =~= "gl"@ + NAMES[78]@);
    assert(SYMBOLS[79]@ =~= "gl"@ + NAMES[79]@);
}

proof fn lemma_prefixed_80(i: int)
    requires
        80 <= i < 96,
    ensures
        SYMBOLS[i]@ == "gl"@ + NAMES[i]@,
{
    reveal_strlit("gl");
    reveal_strlit("DeleteRenderbuffers");
    reveal_strlit("glDeleteRenderbuffers");
    reveal_strlit("DeleteSamplers");
    reveal_strlit("glDeleteSamplers");
    reveal_strlit("DeleteShader");
    reveal_strlit("glDeleteShader");
    reveal_strlit("DeleteSync");
    reveal_strlit("glDeleteSync");
    reveal_strlit("DeleteTextures");
    reveal_strlit("glDeleteTextures");
    reveal_strlit("DeleteTransformFeedbacks");
    reveal_strlit("glDeleteTransformFeedbacks");
    reveal_strlit("DeleteVertexArrays");
    reveal_strlit("glDeleteVertexArrays");
    reveal_strlit("DepthFunc");
    reveal_strlit("glDepthFunc");
    reveal_strlit("DepthMask");
    reveal_strlit("glDepthMask");
    reveal_strlit("DepthRange");
    reveal_strlit("glDepthRange");
    reveal_strlit("DepthRangeArrayv");
    reveal_strlit("glDepthRangeArrayv");
    reveal_strlit("DepthRangeIndexed");
    reveal_strlit("glDepthRangeIndexed");
    reveal_strlit("DepthRangef");
    reveal_strlit("glDepthRangef");
    reveal_strlit("DetachShader");
    reveal_strlit("glDetachShader");
    reveal_strlit("Disable");
    reveal_strlit("glDisable");
    reveal_strlit("DisableVertexAttribArray");
    reveal_strlit("glDisableVertexAttribArray");
    assert(SYMBOLS[80]@ =~= "gl"@ + NAMES[80]@);
    assert(SYMBOLS[81]@ =~= "gl"@ + NAMES[81]@);
    assert(SYMBOLS[82]@ =~= "gl"@ + NAMES[82]@);
    assert(SYMBOLS[83]@ =~= "gl"@ + NAMES[83]@);
    assert(SYMBOLS[84]@ =~= "gl"@ + NAMES[84]@);
    assert(SYMBOLS[85]@ =~= "gl"@ + NAMES[85]@);
    assert(SYMBOLS[86]@ =~= "gl"@ + NAMES[86]@);
    assert(SYMBOLS[87]@ =~= "gl"@ + NAMES[87]@);
    assert(SYMBOLS[88]@ =~= "gl"@ + NAMES[88]@);
    assert(SYMBOLS[89]@ =~= "gl"@ + NAMES[89]@);
    assert(SYMBOLS[90]@ =~= "gl"@ + NAMES[90]@);
    assert(SYMBOLS[91]@ =~= "gl"@ + NAMES[91]@);
    assert(SYMBOLS[92]@ =~= "gl"@ + NAMES[92]@);
    assert(SYMBOLS[93]@ =~= "gl"@ + NAMES[93]@);
    assert(SYMBOLS[94]@ =~= "gl"@ + NAMES[94]@);
    assert(SYMBOLS[95]@ =~= "gl"@ + NAMES[95]@);
}

proof fn lemma_prefixed_96(i: int)
    requires
        96 <= i < 112,
    ensures
        SYMBOLS[i]@ == "gl"@ + NAMES[i]@,
{
    reveal_strlit("gl");
    reveal_strlit("Disablei");
    reveal_strlit("glDisablei");
    reveal_strlit("DispatchCompute");
    reveal_strlit("glDispatchCompute");
    reveal_strlit("DispatchComputeIndirect");
    reveal_strlit("glDispatchComputeIndirect");
    reveal_strlit("DrawArrays");
    reveal_strlit("glDrawArrays");
    reveal_strlit("DrawArraysIndirect");
    reveal_strlit("glDrawArraysIndirect");
    reveal_strlit("DrawArraysInstanced");
    reveal_strlit("glDrawArraysInstanced");
    reveal_strlit("DrawArraysInstancedBaseInstance");
    reveal_strlit("glDrawArraysInstancedBaseInstance");
    reveal_strlit("DrawBuffer");
    reveal_strlit("glDrawBuffer");
    reveal_strlit("DrawBuffers");
    reveal_strlit("glDrawBuffers");
    reveal_strlit("DrawElements");
    reveal_strlit("glDrawElements");
    reveal_strlit("DrawElementsBaseVertex");
    reveal_strlit("glDrawElementsBaseVertex");
    reveal_strlit("DrawElementsIndirect");
    reveal_strlit("glDrawElementsIndirect");
    reveal_strlit("DrawElementsInstanced");
    reveal_strlit("glDrawElementsInstanced");
    reveal_strlit("DrawElementsInstancedBaseInstance");
    reveal_strlit("glDrawElementsInstancedBaseInstance");
    reveal_strlit("DrawElementsInstancedBaseVertex");
    reveal_strlit("glDrawElementsInstancedBaseVertex");
    reveal_strlit("DrawElementsInstancedBaseVertexBaseInstance");
    reveal_strlit("glDrawElementsInstancedBaseVertexBaseInstance");
    assert(SYMBOLS[96]@ =~= "gl"@ + NAMES[96]@);
    assert(SYMBOLS[97]@ =~= "gl"@ + NAMES[97]@);
    assert(SYMBOLS[98]@ =~= "gl"@ + NAMES[98]@);
    assert(SYMBOLS[99]@ =~= "gl"@ + NAMES[99]@);
    assert(SYMBOLS[100]@ =~= "gl"@ + NAMES[100]@);
    assert(SYMBOLS[101]@ =~= "gl"@ + NAMES[101]@);
    assert(SYMBOLS[102]@ =~= "gl"@ + NAMES[102]@);
    assert(SYMBOLS[103]@ =~= "gl"@ + NAMES[103]@);
    assert(SYMBOLS[104]@ =~= "gl"@ + NAMES[104]@);
    assert(SYMBOLS[105]@ =~= "gl"@ + NAMES[105]@);
    assert(SYMBOLS[106]@ =~= "gl"@ + NAMES[106]@);
    assert(SYMBOLS[107]@ =~= "gl"@ + NAMES[107]@);
    assert(SYMBOLS[108]@ =~= "gl"@ + NAMES[108]@);
    assert(SYMBOLS[109]@ =~= "gl"@ + NAMES[109]@);
    assert(SYMBOLS[110]@ =~= "gl"@ + NAMES[110]@);
    assert(SYMBOLS[111]@ =~= "gl"@ + NAMES[111]@);
}

proof fn lemma_prefixed_112(i: int)
    requires
        112 <= i < 128,
    ensures
        SYMBOLS[i]@ == "gl"@ + NAMES[i]@,
{
    reveal_strlit("gl");
    reveal_strlit("DrawRangeElements");
    reveal_strlit("glDrawRangeElements");
    reveal_strlit("DrawRangeElementsBaseVertex");
    reveal_strlit("glDrawRangeElementsBaseVertex");
    reveal_strlit("DrawTransformFeedback");
    reveal_strlit("glDrawTransformFeedback");
    reveal_strlit("DrawTransformFeedbackInstanced");
    reveal_strlit("glDrawTransformFeedbackInstanced");
    reveal_strlit("DrawTransformFeedbackStream");
    reveal_strlit("glDrawTransformFeedbackStream");
    reveal_strlit("DrawTransformFeedbackStreamInstanced");
    reveal_strlit("glDrawTransformFeedbackStreamInstanced");
    reveal_strlit("Enable");
    reveal_strlit("glEnable");
    reveal_strlit("EnableVertexAttribArray");
    reveal_strlit("glEnableVertexAttribArray");
    reveal_strlit("Enablei");
    reveal_strlit("glEnablei");
    reveal_strlit("EndConditionalRender");
    reveal_strlit("glEndConditionalRender");
    reveal_strlit("EndQuery");
    reveal_strlit("glEndQuery");
    reveal_strlit("EndQueryIndexed");
    reveal_strlit("glEndQueryIndexed");
    reveal_strlit("EndTransformFeedback");
    reveal_strlit("glEndTransformFeedback");
    reveal_strlit("FenceSync");
    reveal_strlit("glFenceSync");
    reveal_strlit("Finish");
    reveal_strlit("glFinish");
    reveal_strlit("Flush");
    reveal_strlit("glFlush");
    assert(SYMBOLS[112]@ =~= "gl"@ + NAMES[112]@);
    assert(SYMBOLS[113]@ =~= "gl"@ + NAMES[113]@);
    assert(SYMBOLS[114]@ =~= "gl"@ + NAMES[114]@);
    assert(SYMBOLS[115]@ =~= "gl"@ + NAMES[115]@);
    assert(SYMBOLS[116]@ =~= "gl"@ + NAMES[116]@);
    assert(SYMBOLS[117]@ =~= "gl"@ + NAMES[117]@);
    assert(SYMBOLS[118]@ =~= "gl"@ + NAMES[118]@);
    assert(SYMBOLS[119]@ =~= "gl"@ + NAMES[119]@);
    assert(SYMBOLS[120]@ =~= "gl"@ + NAMES[120]@);
    assert(SYMBOLS[121]@ =~= "gl"@ + NAMES[121]@);
    assert(SYMBOLS[122]@ =~= "gl"@ + NAMES[122]@);
    assert(SYMBOLS[123]@ =~= "gl"@ + NAMES[123]@);
    assert(SYMBOLS[124]@ =~= "gl"@ + NAMES[124]@);
    assert(SYMBOLS[125]@ =~= "gl"@ + NAMES[125]@);
    assert(SYMBOLS[126]@ =~= "gl"@ + NAMES[126]@);
    assert(SYMBOLS[127]@ =~= "gl"@ + NAMES[127]@);
}

proof fn lemma_prefixed_128(i: int)
    requires
        128 <= i < 144,
    ensures
        SYMBOLS[i]@ == "gl"@ + NAMES[i]@,
{
    reveal_strlit("gl");
    reveal_strlit("FlushMappedBufferRange");
    reveal_strlit("glFlushMappedBufferRange");
    reveal_strlit("FramebufferParameteri");
    reveal_strlit("glFramebufferParameteri");
    reveal_strlit("FramebufferRenderbuffer");
    reveal_strlit("glFramebufferRenderbuffer");
    reveal_strlit("FramebufferTexture");
    reveal_strlit("glFramebufferTexture");
    reveal_strlit("FramebufferTexture1D");
    reveal_strlit("glFramebufferTexture1D");
    reveal_strlit("FramebufferTexture2D");
    reveal_strlit("glFramebufferTexture2D");
    reveal_strlit("FramebufferTexture3D");
    reveal_strlit("glFramebufferTexture3D");
    reveal_strlit("FramebufferTextureLayer");
    reveal_strlit("glFramebufferTextureLayer");
    reveal_strlit("FrontFace");
    reveal_strlit("glFrontFace");
    reveal_strlit("GenBuffers");
    reveal_strlit("glGenBuffers");
    reveal_strlit("GenFramebuffers");
    reveal_strlit("glGenFramebuffers");
    reveal_strlit("GenProgramPipelines");
    reveal_strlit("glGenProgramPipelines");
    reveal_strlit("GenQueries");
    reveal_strlit("glGenQueries");
    reveal_strlit("GenRenderbuffers");
    reveal_strlit("glGenRenderbuffers");
    reveal_strlit("GenSamplers");
    reveal_strlit("glGenSamplers");
    reveal_strlit("GenTextures");
    reveal_strlit("glGenTextures");
    assert(SYMBOLS[128]@ =~= "gl"@ + NAMES[128]@);
    assert(SYMBOLS[129]@ =~= "gl"@ + NAMES[129]@);
    assert(SYMBOLS[130]@ =~= "gl"@ + NAMES[130]@);
    assert(SYMBOLS[131]@ =~= "gl"@ + NAMES[131]@);
    assert(SYMBOLS[132]@ =~= "gl"@ + NAMES[132]@);
    assert(SYMBOLS[133]@ =~= "gl"@ + NAMES[133]@);
    assert(SYMBOLS[134]@ =~= "gl"@ + NAMES[134]@);
    assert(SYMBOLS[135]@ =~= "gl"@ + NAMES[135]@);
    assert(SYMBOLS[136]@ =~= "gl"@ + NAMES[136]@);
    assert(SYMBOLS[137]@ =~= "gl"@ + NAMES[137]@);
    assert(SYMBOLS[138]@ =~= "gl"@ + NAMES[138]@);
    assert(SYMBOLS[139]@ =~= "gl"@ + NAMES[139]@);
    assert(SYMBOLS[140]@ =~= "gl"@ + NAMES[140]@);
    assert(SYMBOLS[141]@ =~= "gl"@ + NAMES[141]@);
    assert(SYMBOLS[142]@ =~= "gl"@ + NAMES[142]@);
    assert(SYMBOLS[143]@ =~= "gl"@ + NAMES[143]@);
}

proof fn lemma_prefixed_144(i: int)
    requires
        144 <= i < 160,
    ensures
        SYMBOLS[i]@ == "gl"@ + NAMES[i]@,
{
    reveal_strlit("gl");
    reveal_strlit("GenTransformFeedbacks");
    reveal_strlit("glGenTransformFeedbacks");
    reveal_strlit("GenVertexArrays");
    reveal_strlit("glGenVertexArrays");
    reveal_strlit("GenerateMipmap");
    reveal_strlit("glGenerateMipmap");
    reveal_strlit("GetActiveAtomicCounterBufferiv");
    reveal_strlit("glGetActiveAtomicCounterBufferiv");
    reveal_strlit("GetActiveAttrib");
    reveal_strlit("glGetActiveAttrib");
    reveal_strlit("GetActiveSubroutineName");
    reveal_strlit("glGetActiveSubroutineName");
    reveal_strlit("GetActiveSubroutineUniformName");
    reveal_strlit("glGetActiveSubroutineUniformName");
    reveal_strlit("GetActiveSubroutineUniformiv");
    reveal_strlit("glGetActiveSubroutineUniformiv");
    reveal_strlit("GetActiveUniform");
    reveal_strlit("glGetActiveUniform");
    reveal_strlit("GetActiveUniformBlockName");
    reveal_strlit("glGetActiveUniformBlockName");
    reveal_strlit("GetActiveUniformBlockiv");
    reveal_strlit("glGetActiveUniformBlockiv");
    reveal_strlit("GetActiveUniformName");
    reveal_strlit("glGetActiveUniformName");
    reveal_strlit("GetActiveUniformsiv");
    reveal_strlit("glGetActiveUniformsiv");
    reveal_strlit("GetAttachedShaders");
    reveal_strlit("glGetAttachedShaders");
    reveal_strlit("GetAttribLocation");
    reveal_strlit("glGetAttribLocation");
    reveal_strlit("GetBooleani_v");
    reveal_strlit("glGetBooleani_v");
    assert(SYMBOLS[144]@ =~= "gl"@ + NAMES[144]@);
    assert(SYMBOLS[145]@ =~= "gl"@ + NAMES[145]@);
    assert(SYMBOLS[146]@ =~= "gl"@ + NAMES[146]@);
    assert(SYMBOLS[147]@ =~= "gl"@ + NAMES[147]@);
    assert(SYMBOLS[148]@ =~= "gl"@ + NAMES[148]@);
    assert(SYMBOLS[149]@ =~= "gl"@ + NAMES[149]@);
    assert(SYMBOLS[150]@ =~= "gl"@ + NAMES[150]@);
    assert(SYMBOLS[151]@ =~= "gl"@ + NAMES[151]@);
    assert(SYMBOLS[152]@ =~= "gl"@ + NAMES[152]@);
    assert(SYMBOLS[153]@ =~= "gl"@ + NAMES[153]@);
    assert(SYMBOLS[154]@ =~= "gl"@ + NAMES[154]@);
    assert(SYMBOLS[155]@ =~= "gl"@ + NAMES[155]@);
    assert(SYMBOLS[156]@ =~= "gl"@ + NAMES[156]@);
    assert(SYMBOLS[157]@ =~= "gl"@ + NAMES[157]@);
    assert(SYMBOLS[158]@ =~= "gl"@ + NAMES[158]@);
    assert(SYMBOLS[159]@ =~= "gl"@ + NAMES[159]@);
}

proof fn lemma_prefixed_160(i: int)
    requires
        160 <= i < 176,
    ensures
        SYMBOLS[i]@ == "gl"@ + NAMES[i]@,
{
    reveal_strlit("gl");
    reveal_strlit("GetBooleanv");
    reveal_strlit("glGetBooleanv");
    reveal_strlit("GetBufferParameteri64v");
    reveal_strlit("glGetBufferParameteri64v");
    reveal_strlit("GetBufferParameteriv");
    reveal_strlit("glGetBufferParameteriv");
    reveal_strlit("GetBufferPointerv");
    reveal_strlit("glGetBufferPointerv");
    reveal_strlit("GetBufferSubData");
    reveal_strlit("glGetBufferSubData");
    reveal_strlit("GetCompressedTexImage");
    reveal_strlit("glGetCompressedTexImage");
    reveal_strlit("GetDebugMessageLog");
    reveal_strlit("glGetDebugMessageLog");
    reveal_strlit("GetDoublei_v");
    reveal_strlit("glGetDoublei_v");
    reveal_strlit("GetDoublev");
    reveal_strlit("glGetDoublev");
    reveal_strlit("GetError");
    reveal_strlit("glGetError");
    reveal_strlit("GetFloati_v");
    reveal_strlit("glGetFloati_v");
    reveal_strlit("GetFloatv");
    reveal_strlit("glGetFloatv");
    reveal_strlit("GetFragDataIndex");
    reveal_strlit("glGetFragDataIndex");
    reveal_strlit("GetFragDataLocation");
    reveal_strlit("glGetFragDataLocation");
    reveal_strlit("GetFramebufferAttachmentParameteriv");
    reveal_strlit("glGetFramebufferAttachmentParameteriv");
    reveal_strlit("GetFramebufferParameteriv");
    reveal_strlit("glGetFramebufferParameteriv");
    assert(SYMBOLS[160]@ =~= "gl"@ + NAMES[160]@);
    assert(SYMBOLS[161]@ =~= "gl"@ + NAMES[161]@);
    assert(SYMBOLS[162]@ =~= "gl"@ + NAMES[162]@);
    assert(SYMBOLS[163]@ =~= "gl"@ + NAMES[163]@);
    assert(SYMBOLS[164]@ =~= "gl"@ + NAMES[164]@);
    assert(SYMBOLS[165]@ =~= "gl"@ + NAMES[165]@);
    assert(SYMBOLS[166]@ =~= "gl"@ + NAMES[166]@);
    assert(SYMBOLS[167]@ =~= "gl"@ + NAMES[167]@);
    assert(SYMBOLS[168]@ =~= "gl"@ + NAMES[168]@);
    assert(SYMBOLS[169]@ =~= "gl"@ + NAMES[169]@);
    assert(SYMBOLS[170]@ =~= "gl"@ + NAMES[170]@);
    assert(SYMBOLS[171]@ =~= "gl"@ + NAMES[171]@);
    assert(SYMBOLS[172]@ =~= "gl"@ + NAMES[172]@);
    assert(SYMBOLS[173]@ =~= "gl"@ + NAMES[173]@);
    assert(SYMBOLS[174]@ =~= "gl"@ + NAMES[174]@);
    assert(SYMBOLS[175]@ =~= "gl"@ + NAMES[175]@);
}

proof fn lemma_prefixed_176(i: int)
    requires
        176 <= i < 192,
    ensures
        SYMBOLS[i]@ == "gl"@ + NAMES[i]@,
{
    reveal_strlit("gl");
    reveal_strlit("GetInteger64i_v");
    reveal_strlit("glGetInteger64i_v");
    reveal_strlit("GetInteger64v");
    reveal_strlit("glGetInteger64v");
    reveal_strlit("GetIntegeri_v");
    reveal_strlit("glGetIntegeri_v");
    reveal_strlit("GetIntegerv");
    reveal_strlit("glGetIntegerv");
    reveal_strlit("GetInternalformati64v");
    reveal_strlit("glGetInternalformati64v");
    reveal_strlit("GetInternalformativ");
    reveal_strlit("glGetInternalformativ");
    reveal_strlit("GetMultisamplefv");
    reveal_strlit("glGetMultisamplefv");
    reveal_strlit("GetObjectLabel");
    reveal_strlit("glGetObjectLabel");
    reveal_strlit("GetObjectPtrLabel");
    reveal_strlit("glGetObjectPtrLabel");
    reveal_strlit("GetProgramBinary");
    reveal_strlit("glGetProgramBinary");
    reveal_strlit("GetProgramInfoLog");
    reveal_strlit("glGetProgramInfoLog");
    reveal_strlit("GetProgramInterfaceiv");
    reveal_strlit("glGetProgramInterfaceiv");
    reveal_strlit("GetProgramPipelineInfoLog");
    reveal_strlit("glGetProgramPipelineInfoLog");
    reveal_strlit("GetProgramPipelineiv");
    reveal_strlit("glGetProgramPipelineiv");
    reveal_strlit("GetProgramResourceIndex");
    reveal_strlit("glGetProgramResourceIndex");
    reveal_strlit("GetProgramResourceLocation");
    reveal_strlit("glGetProgramResourceLocation");
    assert(SYMBOLS[176]@ =~= "gl"@ + NAMES[176]@);
    assert(SYMBOLS[177]@ =~= "gl"@ + NAMES[177]@);
    assert(SYMBOLS[178]@ =~= "gl"@ + NAMES[178]@);
    assert(SYMBOLS[179]@ =~= "gl"@ + NAMES[179]@);
    assert(SYMBOLS[180]@ =~= "gl"@ + NAMES[180]@);
    assert(SYMBOLS[181]@ =~= "gl"@ + NAMES[181]@);
    assert(SYMBOLS[182]@ =~= "gl"@ + NAMES[182]@);
    assert(SYMBOLS[183]@ =~= "gl"@ + NAMES[183]@);
    assert(SYMBOLS[184]@ =~= "gl"@ + NAMES[184]@);
    assert(SYMBOLS[185]@ =~= "gl"@ + NAMES[185]@);
    assert(SYMBOLS[186]@ =~= "gl"@ + NAMES[186]@);
    assert(SYMBOLS[187]@ =~= "gl"@ + NAMES[187]@);
    assert(SYMBOLS[188]@ =~= "gl"@ + NAMES[188]@);
    assert(SYMBOLS[189]@ =~= "gl"@ + NAMES[189]@);
    assert(SYMBOLS[190]@ =~= "gl"@ + NAMES[190]@);
    assert(SYMBOLS[191]@ =~= "gl"@ + NAMES[191]@);
}

proof fn lemma_prefixed_192(i: int)
    requires
        192 <= i < 208,
    ensures
        SYMBOLS[i]@ == "gl"@ + NAMES[i]@,
{
    reveal_strlit("gl");
    reveal_strlit("GetProgramResourceLocationIndex");
    reveal_strlit("glGetProgramResourceLocationIndex");
    reveal_strlit("GetProgramResourceName");
    reveal_strlit("glGetProgramResourceName");
    reveal_strlit("GetProgramResourceiv");
    reveal_strlit("glGetProgramResourceiv");
    reveal_strlit("GetProgramStageiv");
    reveal_strlit("glGetProgramStageiv");
    reveal_strlit("GetProgramiv");
    reveal_strlit("glGetProgramiv");
    reveal_strlit("GetQueryIndexediv");
    reveal_strlit("glGetQueryIndexediv");
    reveal_strlit("GetQueryObjecti64v");
    reveal_strlit("glGetQueryObjecti64v");
    reveal_strlit("GetQueryObjectiv");
    reveal_strlit("glGetQueryObjectiv");
    reveal_strlit("GetQueryObjectui64v");
    reveal_strlit("glGetQueryObjectui64v");
    reveal_strlit("GetQueryObjectuiv");
    reveal_strlit("glGetQueryObjectuiv");
    reveal_strlit("GetQueryiv");
    reveal_strlit("glGetQueryiv");
    reveal_strlit("GetRenderbufferParameteriv");
    reveal_strlit("glGetRenderbufferParameteriv");
    reveal_strlit("GetSamplerParameterIiv");
    reveal_strlit("glGetSamplerParameterIiv");
    reveal_strlit("GetSamplerParameterIuiv");
    reveal_strlit("glGetSamplerParameterIuiv");
    reveal_strlit("GetSamplerParameterfv");
    reveal_strlit("glGetSamplerParameterfv");
    reveal_strlit("GetSamplerParameteriv");
    reveal_strlit("glGetSamplerParameteriv");
    assert(SYMBOLS[192]@ =~= "gl"@ + NAMES[192]@);
    assert(SYMBOLS[193]@ =~= "gl"@ + NAMES[193]@);
    assert(SYMBOLS[194]@ =~= "gl"@ + NAMES[194]@);
    assert(SYMBOLS[195]@ =~= "gl"@ + NAMES[195]@);
    assert(SYMBOLS[196]@ =~= "gl"@ + NAMES[196]@);
    assert(SYMBOLS[197]@ =~= "gl"@ + NAMES[197]@);
    assert(SYMBOLS[198]@ =~= "gl"@ + NAMES[198]@);
    assert(SYMBOLS[199]@ =~= "gl"@ + NAMES[199]@);
    assert(SYMBOLS[200]@ =~= "gl"@ + NAMES[200]@);
    assert(SYMBOLS[201]@ =~= "gl"@ + NAMES[201]@);
    assert(SYMBOLS[202]@ =~= "gl"@ + NAMES[202]@);
    assert(SYMBOLS[203]@ =~= "gl"@ + NAMES[203]@);
    assert(SYMBOLS[204]@ =~= "gl"@ + NAMES[204]@);
    assert(SYMBOLS[205]@ =~= "gl"@ + NAMES[205]@);
    assert(SYMBOLS[206]@ =~= "gl"@ + NAMES[206]@);
    assert(SYMBOLS[207]@ =~= "gl"@ + NAMES[207]@);
}

proof fn lemma_prefixed_208(i: int)
    requires
        208 <= i < 224,
    ensures
        SYMBOLS[i]@ == "gl"@ + NAMES[i]@,
{
    reveal_strlit("gl");
    reveal_strlit("GetShaderInfoLog");
    reveal_strlit("glGetShaderInfoLog");
    reveal_strlit("GetShaderPrecisionFormat");
    reveal_strlit("glGetShaderPrecisionFormat");
    reveal_strlit("GetShaderSource");
    reveal_strlit("glGetShaderSource");
    reveal_strlit("GetShaderiv");
    reveal_strlit("glGetShaderiv");
    reveal_strlit("GetString");
    reveal_strlit("glGetString");
    reveal_strlit("GetStringi");
    reveal_strlit("glGetStringi");
    reveal_strlit("GetSubroutineIndex");
    reveal_strlit("glGetSubroutineIndex");
    reveal_strlit("GetSubroutineUniformLocation");
    reveal_strlit("glGetSubroutineUniformLocation");
    reveal_strlit("GetSynciv");
    reveal_strlit("glGetSynciv");
    reveal_strlit("GetTexImage");
    reveal_strlit("glGetTexImage");
    reveal_strlit("GetTexLevelParameterfv");
    reveal_strlit("glGetTexLevelParameterfv");
    reveal_strlit("GetTexLevelParameteriv");
    reveal_strlit("glGetTexLevelParameteriv");
    reveal_strlit("GetTexParameterIiv");
    reveal_strlit("glGetTexParameterIiv");
    reveal_strlit("GetTexParameterIuiv");
    reveal_strlit("glGetTexParameterIuiv");
    reveal_strlit("GetTexParameterfv");
    reveal_strlit("glGetTexParameterfv");
    reveal_strlit("GetTexParameteriv");
    reveal_strlit("glGetTexParameteriv");
    assert(SYMBOLS[208]@ =~= "gl"@ + NAMES[208]@);
    assert(SYMBOLS[209]@ =~= "gl"@ + NAMES[209]@);
    assert(SYMBOLS[210]@ =~= "gl"@ + NAMES[210]@);
    assert(SYMBOLS[211]@ =~= "gl"@ + NAMES[211]@);
    assert(SYMBOLS[212]@ =~= "gl"@ + NAMES[212]@);
    assert(SYMBOLS[213]@ =~= "gl"@ + NAMES[213]@);
    assert(SYMBOLS[214]@ =~= "gl"@ + NAMES[214]@);
    assert(SYMBOLS[215]@ =~= "gl"@ + NAMES[215]@);
    assert(SYMBOLS[216]@ =~= "gl"@ + NAMES[216]@);
    assert(SYMBOLS[217]@ =~= "gl"@ + NAMES[217]@);
    assert(SYMBOLS[218]@ =~= "gl"@ + NAMES[218]@);
    assert(SYMBOLS[219]@ =~= "gl"@ + NAMES[219]@);
    assert(SYMBOLS[220]@ =~= "gl"@ + NAMES[220]@);
    assert(SYMBOLS[221]@ =~= "gl"@ + NAMES[221]@);
    assert(SYMBOLS[222]@ =~= "gl"@ + NAMES[222]@);
    assert(SYMBOLS[223]@ =~= "gl"@ + NAMES[223]@);
}

proof fn lemma_prefixed_224(i: int)
    requires
        224 <= i < 240,
    ensures
        SYMBOLS[i]@ == "gl"@ + NAMES[i]@,
{
    reveal_strlit("gl");
    reveal_strlit("GetTransformFeedbackVarying");
    reveal_strlit("glGetTransformFeedbackVarying");
    reveal_strlit("GetUniformBlockIndex");
    reveal_strlit("glGetUniformBlockIndex");
    reveal_strlit("GetUniformIndices");
    reveal_strlit("glGetUniformIndices");
    reveal_strlit("GetUniformLocation");
    reveal_strlit("glGetUniformLocation");
    reveal_strlit("GetUniformSubroutineuiv");
    reveal_strlit("glGetUniformSubroutineuiv");
    reveal_strlit("GetUniformdv");
    reveal_strlit("glGetUniformdv");
    reveal_strlit("GetUniformfv");
    reveal_strlit("glGetUniformfv");
    reveal_strlit("GetUniformiv");
    reveal_strlit("glGetUniformiv");
    reveal_strlit("GetUniformuiv");
    reveal_strlit("glGetUniformuiv");
    reveal_strlit("GetVertexAttribIiv");
    reveal_strlit("glGetVertexAttribIiv");
    reveal_strlit("GetVertexAttribIuiv");
    reveal_strlit("glGetVertexAttribIuiv");
    reveal_strlit("GetVertexAttribLdv");
    reveal_strlit("glGetVertexAttribLdv");
    reveal_strlit("GetVertexAttribPointerv");
    reveal_strlit("glGetVertexAttribPointerv");
    reveal_strlit("GetVertexAttribdv");
    reveal_strlit("glGetVertexAttribdv");
    reveal_strlit("GetVertexAttribfv");
    reveal_strlit("glGetVertexAttribfv");
    reveal_strlit("GetVertexAttribiv");
    reveal_strlit("glGetVertexAttribiv");
    assert(SYMBOLS[224]@ =~= "gl"@ + NAMES[224]@);
    assert(SYMBOLS[225]@ =~= "gl"@ + NAMES[225]@);
    assert(SYMBOLS[226]@ =~= "gl"@ + NAMES[226]@);
    assert(SYMBOLS[227]@ =~= "gl"@ + NAMES[227]@);
    assert(SYMBOLS[228]@ =~= "gl"@ + NAMES[228]@);
    assert(SYMBOLS[229]@ =~= "gl"@ + NAMES[229]@);
    assert(SYMBOLS[230]@ =~= "gl"@ + NAMES[230]@);
    assert(SYMBOLS[231]@ =~= "gl"@ + NAMES[231]@);
    assert(SYMBOLS[232]@ =~= "gl"@ + NAMES[232]@);
    assert(SYMBOLS[233]@ =~= "gl"@ + NAMES[233]@);
    assert(SYMBOLS[234]@ =~= "gl"@ + NAMES[234]@);
    assert(SYMBOLS[235]@ =~= "gl"@ + NAMES[235]@);
    assert(SYMBOLS[236]@ =~= "gl"@ + NAMES[236]@);
    assert(SYMBOLS[237]@ =~= "gl"@ + NAMES[237]@);
    assert(SYMBOLS[238]@ =~= "gl"@ + NAMES[238]@);
    assert(SYMBOLS[239]@ =~= "gl"@ + NAMES[239]@);
}

proof fn lemma_prefixed_240(i: int)
    requires
        240 <= i < 256,
    ensures
        SYMBOLS[i]@ == "gl"@ + NAMES[i]@,
{
    reveal_strlit("gl");
    reveal_strlit("Hint");
    reveal_strlit("glHint");
    reveal_strlit("InvalidateBufferData");
    reveal_strlit("glInvalidateBufferData");
    reveal_strlit("InvalidateBufferSubData");
    reveal_strlit("glInvalidateBufferSubData");
    reveal_strlit("InvalidateFramebuffer");
    reveal_strlit("glInvalidateFramebuffer");
    reveal_strlit("InvalidateSubFramebuffer");
    reveal_strlit("glInvalidateSubFramebuffer");
    reveal_strlit("InvalidateTexImage");
    reveal_strlit("glInvalidateTexImage");
    reveal_strlit("InvalidateTexSubImage");
    reveal_strlit("glInvalidateTexSubImage");
    reveal_strlit("IsBuffer");
    reveal_strlit("glIsBuffer");
    reveal_strlit("IsEnabled");
    reveal_strlit("glIsEnabled");
    reveal_strlit("IsEnabledi");
    reveal_strlit("glIsEnabledi");
    reveal_strlit("IsFramebuffer");
    reveal_strlit("glIsFramebuffer");
    reveal_strlit("IsProgram");
    reveal_strlit("glIsProgram");
    reveal_strlit("IsProgramPipeline");
    reveal_strlit("glIsProgramPipeline");
    reveal_strlit("IsQuery");
    reveal_strlit("glIsQuery");
    reveal_strlit("IsRenderbuffer");
    reveal_strlit("glIsRenderbuffer");
    reveal_strlit("IsSampler");
    reveal_strlit("glIsSampler");
    assert(SYMBOLS[240]@ =~= "gl"@ + NAMES[240]@);
    assert(SYMBOLS[241]@ =~= "gl"@ + NAMES[241]@);
    assert(SYMBOLS[242]@ =~= "gl"@ + NAMES[242]@);
    assert(SYMBOLS[243]@ =~= "gl"@ + NAMES[243]@);
    assert(SYMBOLS[244]@ =~= "gl"@ + NAMES[244]@);
    assert(SYMBOLS[245]@ =~= "gl"@ + NAMES[245]@);
    assert(SYMBOLS[246]@ =~= "gl"@ + NAMES[246]@);
    assert(SYMBOLS[247]@ =~= "gl"@ + NAMES[247]@);
    assert(SYMBOLS[248]@ =~= "gl"@ + NAMES[248]@);
    assert(SYMBOLS[249]@ =~= "gl"@ + NAMES[249]@);
    assert(SYMBOLS[250]@ =~= "gl"@ + NAMES[250]@);
    assert(SYMBOLS[251]@ =~= "gl"@ + NAMES[251]@);
    assert(SYMBOLS[252]@ =~= "gl"@ + NAMES[252]@);
    assert(SYMBOLS[253]@ =~= "gl"@ + NAMES[253]@);
    assert(SYMBOLS[254]@ =~= "gl"@ + NAMES[254]@);
    assert(SYMBOLS[255]@ =~= "gl"@ + NAMES[255]@);
}

proof fn lemma_prefixed_256(i: int)
    requires
        256 <= i < 272,
    ensures
        SYMBOLS[i]@ == "gl"@ + NAMES[i]@,
{
    reveal_strlit("gl");
    reveal_strlit("IsShader");
    reveal_strlit("glIsShader");
    reveal_strlit("IsSync");
    reveal_strlit("glIsSync");
    reveal_strlit("IsTexture");
    reveal_strlit("glIsTexture");
    reveal_strlit("IsTransformFeedback");
    reveal_strlit("glIsTransformFeedback");
    reveal_strlit("IsVertexArray");
    reveal_strlit("glIsVertexArray");
    reveal_strlit("LineWidth");
    reveal_strlit("glLineWidth");
    reveal_strlit("LinkProgram");
    reveal_strlit("glLinkProgram");
    reveal_strlit("LogicOp");
    reveal_strlit("glLogicOp");
    reveal_strlit("MapBuffer");
    reveal_strlit("glMapBuffer");
    reveal_strlit("MapBufferRange");
    reveal_strlit("glMapBufferRange");
    reveal_strlit("MemoryBarrier");
    reveal_strlit("glMemoryBarrier");
    reveal_strlit("MinSampleShading");
    reveal_strlit("glMinSampleShading");
    reveal_strlit("MultiDrawArrays");
    reveal_strlit("glMultiDrawArrays");
    reveal_strlit("MultiDrawArraysIndirect");
    reveal_strlit("glMultiDrawArraysIndirect");
    reveal_strlit("MultiDrawElements");
    reveal_strlit("glMultiDrawElements");
    reveal_strlit("MultiDrawElementsBaseVertex");
    reveal_strlit("glMultiDrawElementsBaseVertex");
    assert(SYMBOLS[256]@ =~= "gl"@ + NAMES[256]@);
    assert(SYMBOLS[257]@ =~= "gl"@ + NAMES[257]@);
    assert(SYMBOLS[258]@ =~= "gl"@ + NAMES[258]@);
    assert(SYMBOLS[259]@ =~= "gl"@ + NAMES[259]@);
    assert(SYMBOLS[260]@ =~= "gl"@ + NAMES[260]@);
    assert(SYMBOLS[261]@ =~= "gl"@ + NAMES[261]@);
    assert(SYMBOLS[262]@ =~= "gl"@ + NAMES[262]@);
    assert(SYMBOLS[263]@ =~= "gl"@ + NAMES[263]@);
    assert(SYMBOLS[264]@ =~= "gl"@ + NAMES[264]@);
    assert(SYMBOLS[265]@ =~= "gl"@ + NAMES[265]@);
    assert(SYMBOLS[266]@ =~= "gl"@ + NAMES[266]@);
    assert(SYMBOLS[267]@ =~= "gl"@ + NAMES[267]@);
    assert(SYMBOLS[268]@ =~= "gl"@ + NAMES[268]@);
    assert(SYMBOLS[269]@ =~= "gl"@ + NAMES[269]@);
    assert(SYMBOLS[270]@ =~= "gl"@ + NAMES[270]@);
    assert(SYMBOLS[271]@ =~= "gl"@ + NAMES[271]@);
}

proof fn lemma_prefixed_272(i: int)
    requires
        272 <= i < 288,
    ensures
        SYMBOLS[i]@ == "gl"@ + NAMES[i]@,
{
    reveal_strlit("gl");
    reveal_strlit("MultiDrawElementsIndirect");
    reveal_strlit("glMultiDrawElementsIndirect");
    reveal_strlit("MultiTexCoordP1ui");
    reveal_strlit("glMultiTexCoordP1ui");
    reveal_strlit("MultiTexCoordP1uiv");
    reveal_strlit("glMultiTexCoordP1uiv");
    reveal_strlit("MultiTexCoordP2ui");
    reveal_strlit("glMultiTexCoordP2ui");
    reveal_strlit("MultiTexCoordP2uiv");
    reveal_strlit("glMultiTexCoordP2uiv");
    reveal_strlit("MultiTexCoordP3ui");
    reveal_strlit("glMultiTexCoordP3ui");
    reveal_strlit("MultiTexCoordP3uiv");
    reveal_strlit("glMultiTexCoordP3uiv");
    reveal_strlit("MultiTexCoordP4ui");
    reveal_strlit("glMultiTexCoordP4ui");
    reveal_strlit("MultiTexCoordP4uiv");
    reveal_strlit("glMultiTexCoordP4uiv");
    reveal_strlit("NormalP3ui");
    reveal_strlit("glNormalP3ui");
    reveal_strlit("NormalP3uiv");
    reveal_strlit("glNormalP3uiv");
    reveal_strlit("ObjectLabel");
    reveal_strlit("glObjectLabel");
    reveal_strlit("ObjectPtrLabel");
    reveal_strlit("glObjectPtrLabel");
    reveal_strlit("PatchParameterfv");
    reveal_strlit("glPatchParameterfv");
    reveal_strlit("PatchParameteri");
    reveal_strlit("glPatchParameteri");
    reveal_strlit("PauseTransformFeedback");
    reveal_strlit("glPauseTransformFeedback");
    assert(SYMBOLS[272]@ =~= "gl"@ + NAMES[272]@);
    assert(SYMBOLS[273]@ =~= "gl"@ + NAMES[273]@);
    assert(SYMBOLS[274]@ =~= "gl"@ + NAMES[274]@);
    assert(SYMBOLS[275]@ =~= "gl"@ + NAMES[275]@);
    assert(SYMBOLS[276]@ =~= "gl"@ + NAMES[276]@);
    assert(SYMBOLS[277]@ =~= "gl"@ + NAMES[277]@);
    assert(SYMBOLS[278]@ =~= "gl"@ + NAMES[278]@);
    assert(SYMBOLS[279]@ =~= "gl"@ + NAMES[279]@);
    assert(SYMBOLS[280]@ =~= "gl"@ + NAMES[280]@);
    assert(SYMBOLS[281]@ =~= "gl"@ + NAMES[281]@);
    assert(SYMBOLS[282]@ =~= "gl"@ + NAMES[282]@);
    assert(SYMBOLS[283]@ =~= "gl"@ + NAMES[283]@);
    assert(SYMBOLS[284]@ =~= "gl"@ + NAMES[284]@);
    assert(SYMBOLS[285]@ =~= "gl"@ + NAMES[285]@);
    assert(SYMBOLS[286]@ =~= "gl"@ + NAMES[286]@);
    assert(SYMBOLS[287]@ =~= "gl"@ + NAMES[287]@);
}

proof fn lemma_prefixed_288(i: int)
    requires
        288 <= i < 304,
    ensures
        SYMBOLS[i]@ == "gl"@ + NAMES[i]@,
{
    reveal_strlit("gl");
    reveal_strlit("PixelStoref");
    reveal_strlit("glPixelStoref");
    reveal_strlit("PixelStorei");
    reveal_strlit("glPixelStorei");
    reveal_strlit("PointParameterf");
    reveal_strlit("glPointParameterf");
    reveal_strlit("PointParameterfv");
    reveal_strlit("glPointParameterfv");
    reveal_strlit("PointParameteri");
    reveal_strlit("glPointParameteri");
    reveal_strlit("PointParameteriv");
    reveal_strlit("glPointParameteriv");
    reveal_strlit("PointSize");
    reveal_strlit("glPointSize");
    reveal_strlit("PolygonMode");
    reveal_strlit("glPolygonMode");
    reveal_strlit("PolygonOffset");
    reveal_strlit("glPolygonOffset");
    reveal_strlit("PopDebugGroup");
    reveal_strlit("glPopDebugGroup");
    reveal_strlit("PrimitiveRestartIndex");
    reveal_strlit("glPrimitiveRestartIndex");
    reveal_strlit("ProgramBinary");
    reveal_strlit("glProgramBinary");
    reveal_strlit("ProgramParameteri");
    reveal_strlit("glProgramParameteri");
    reveal_strlit("ProgramUniform1d");
    reveal_strlit("glProgramUniform1d");
    reveal_strlit("ProgramUniform1dv");
    reveal_strlit("glProgramUniform1dv");
    reveal_strlit("ProgramUniform1f");
    reveal_strlit("glProgramUniform1f");
    assert(SYMBOLS[288]@ =~= "gl"@ + NAMES[288]@);
    assert(SYMBOLS[289]@ =~= "gl"@ + NAMES[289]@);
    assert(SYMBOLS[290]@ =~= "gl"@ + NAMES[290]@);
    assert(SYMBOLS[291]@ =~= "gl"@ + NAMES[291]@);
    assert(SYMBOLS[292]@ =~= "gl"@ + NAMES[292]@);
    assert(SYMBOLS[293]@ =~= "gl"@ + NAMES[293]@);
    assert(SYMBOLS[294]@ =~= "gl"@ + NAMES[294]@);
    assert(SYMBOLS[295]@ =~= "gl"@ + NAMES[295]@);
    assert(SYMBOLS[296]@ =~= "gl"@ + NAMES[296]@);
    assert(SYMBOLS[297]@ =~= "gl"@ + NAMES[297]@);
    assert(SYMBOLS[298]@ =~= "gl"@ + NAMES[298]@);
    assert(SYMBOLS[299]@ =~= "gl"@ + NAMES[299]@);
    assert(SYMBOLS[300]@ =~= "gl"@ + NAMES[300]@);
    assert(SYMBOLS[301]@ =~= "gl"@ + NAMES[301]@);
    assert(SYMBOLS[302]@ =~= "gl"@ + NAMES[302]@);
    assert(SYMBOLS[303]@ =~= "gl"@ + NAMES[303]@);
}

proof fn lemma_prefixed_304(i: int)
    requires
        304 <= i < 320,
    ensures
        SYMBOLS[i]@ == "gl"@ + NAMES[i]@,
{
    reveal_strlit("gl");
    reveal_strlit("ProgramUniform1fv");
    reveal_strlit("glProgramUniform1fv");
    reveal_strlit("ProgramUniform1i");
    reveal_strlit("glProgramUniform1i");
    reveal_strlit("ProgramUniform1iv");
    reveal_strlit("glProgramUniform1iv");
    reveal_strlit("ProgramUniform1ui");
    reveal_strlit("glProgramUniform1ui");
    reveal_strlit("ProgramUniform1uiv");
    reveal_strlit("glProgramUniform1uiv");
    reveal_strlit("ProgramUniform2d");
    reveal_strlit("glProgramUniform2d");
    reveal_strlit("ProgramUniform2dv");
    reveal_strlit("glProgramUniform2dv");
    reveal_strlit("ProgramUniform2f");
    reveal_strlit("glProgramUniform2f");
    reveal_strlit("ProgramUniform2fv");
    reveal_strlit("glProgramUniform2fv");
    reveal_strlit("ProgramUniform2i");
    reveal_strlit("glProgramUniform2i");
    reveal_strlit("ProgramUniform2iv");
    reveal_strlit("glProgramUniform2iv");
    reveal_strlit("ProgramUniform2ui");
    reveal_strlit("glProgramUniform2ui");
    reveal_strlit("ProgramUniform2uiv");
    reveal_strlit("glProgramUniform2uiv");
    reveal_strlit("ProgramUniform3d");
    reveal_strlit("glProgramUniform3d");
    reveal_strlit("ProgramUniform3dv");
    reveal_strlit("glProgramUniform3dv");
    reveal_strlit("ProgramUniform3f");
    reveal_strlit("glProgramUniform3f");
    assert(SYMBOLS[304]@ =~= "gl"@ + NAMES[304]@);
    assert(SYMBOLS[305]@ =~= "gl"@ + NAMES[305]@);
    assert(SYMBOLS[306]@ =~= "gl"@ + NAMES[306]@);
    assert(SYMBOLS[307]@ =~= "gl"@ + NAMES[307]@);
    assert(SYMBOLS[308]@ =~= "gl"@ + NAMES[308]@);
    assert(SYMBOLS[309]@ =~= "gl"@ + NAMES[309]@);
    assert(SYMBOLS[310]@ =~= "gl"@ + NAMES[310]@);
    assert(SYMBOLS[311]@ =~= "gl"@ + NAMES[311]@);
    assert(SYMBOLS[312]@ =~= "gl"@ + NAMES[312]@);
    assert(SYMBOLS[313]@ =~= "gl"@ + NAMES[313]@);
    assert(SYMBOLS[314]@ =~= "gl"@ + NAMES[314]@);
    assert(SYMBOLS[315]@ =~= "gl"@ + NAMES[315]@);
    assert(SYMBOLS[316]@ =~= "gl"@ + NAMES[316]@);
    assert(SYMBOLS[317]@ =~= "gl"@ + NAMES[317]@);
    assert(SYMBOLS[318]@ =~= "gl"@ + NAMES[318]@);
    assert(SYMBOLS[319]@ =~= "gl"@ + NAMES[319]@);
}

proof fn lemma_prefixed_320(i: int)
    requires
        320 <= i < 336,
    ensures
        SYMBOLS[i]@ == "gl"@ + NAMES[i]@,
{
    reveal_strlit("gl");
    reveal_strlit("ProgramUniform3fv");
    reveal_strlit("glProgramUniform3fv");
    reveal_strlit("ProgramUniform3i");
    reveal_strlit("glProgramUniform3i");
    reveal_strlit("ProgramUniform3iv");
    reveal_strlit("glProgramUniform3iv");
    reveal_strlit("ProgramUniform3ui");
    reveal_strlit("glProgramUniform3ui");
    reveal_strlit("ProgramUniform3uiv");
    reveal_strlit("glProgramUniform3uiv");
    reveal_strlit("ProgramUniform4d");
    reveal_strlit("glProgramUniform4d");
    reveal_strlit("ProgramUniform4dv");
    reveal_strlit("glProgramUniform4dv");
    reveal_strlit("ProgramUniform4f");
    reveal_strlit("glProgramUniform4f");
    reveal_strlit("ProgramUniform4fv");
    reveal_strlit("glProgramUniform4fv");
    reveal_strlit("ProgramUniform4i");
    reveal_strlit("glProgramUniform4i");
    reveal_strlit("ProgramUniform4iv");
    reveal_strlit("glProgramUniform4iv");
    reveal_strlit("ProgramUniform4ui");
    reveal_strlit("glProgramUniform4ui");
    reveal_strlit("ProgramUniform4uiv");
    reveal_strlit("glProgramUniform4uiv");
    reveal_strlit("ProgramUniformMatrix2dv");
    reveal_strlit("glProgramUniformMatrix2dv");
    reveal_strlit("ProgramUniformMatrix2fv");
    reveal_strlit("glProgramUniformMatrix2fv");
    reveal_strlit("ProgramUniformMatrix2x3dv");
    reveal_strlit("glProgramUniformMatrix2x3dv");
    assert(SYMBOLS[320]@ =~= "gl"@ + NAMES[320]@);
    assert(SYMBOLS[321]@ =~= "gl"@ + NAMES[321]@);
    assert(SYMBOLS[322]@ =~= "gl"@ + NAMES[322]@);
    assert(SYMBOLS[323]@ =~= "gl"@ + NAMES[323]@);
    assert(SYMBOLS[324]@ =~= "gl"@ + NAMES[324]@);
    assert(SYMBOLS[325]@ =~= "gl"@ + NAMES[325]@);
    assert(SYMBOLS[326]@ =~= "gl"@ + NAMES[326]@);
    assert(SYMBOLS[327]@ =~= "gl"@ + NAMES[327]@);
    assert(SYMBOLS[328]@ =~= "gl"@ + NAMES[328]@);
    assert(SYMBOLS[329]@ =~= "gl"@ + NAMES[329]@);
    assert(SYMBOLS[330]@ =~= "gl"@ + NAMES[330]@);
    assert(SYMBOLS[331]@ =~= "gl"@ + NAMES[331]@);
    assert(SYMBOLS[332]@ =~= "gl"@ + NAMES[332]@);
    assert(SYMBOLS[333]@ =~= "gl"@ + NAMES[333]@);
    assert(SYMBOLS[334]@ =~= "gl"@ + NAMES[334]@);
    assert(SYMBOLS[335]@ =~= "gl"@ + NAMES[335]@);
}

proof fn lemma_prefixed_336(i: int)
    requires
        336 <= i < 352,
    ensures
        SYMBOLS[i]@ == "gl"@ + NAMES[i]@,
{
    reveal_strlit("gl");
    reveal_strlit("ProgramUniformMatrix2x3fv");
    reveal_strlit("glProgramUniformMatrix2x3fv");
    reveal_strlit("ProgramUniformMatrix2x4dv");
    reveal_strlit("glProgramUniformMatrix2x4dv");
    reveal_strlit("ProgramUniformMatrix2x4fv");
    reveal_strlit("glProgramUniformMatrix2x4fv");
    reveal_strlit("ProgramUniformMatrix3dv");
    reveal_strlit("glProgramUniformMatrix3dv");
    reveal_strlit("ProgramUniformMatrix3fv");
    reveal_strlit("glProgramUniformMatrix3fv");
    reveal_strlit("ProgramUniformMatrix3x2dv");
    reveal_strlit("glProgramUniformMatrix3x2dv");
    reveal_strlit("ProgramUniformMatrix3x2fv");
    reveal_strlit("glProgramUniformMatrix3x2fv");
    reveal_strlit("ProgramUniformMatrix3x4dv");
    reveal_strlit("glProgramUniformMatrix3x4dv");
    reveal_strlit("ProgramUniformMatrix3x4fv");
    reveal_strlit("glProgramUniformMatrix3x4fv");
    reveal_strlit("ProgramUniformMatrix4dv");
    reveal_strlit("glProgramUniformMatrix4dv");
    reveal_strlit("ProgramUniformMatrix4fv");
    reveal_strlit("glProgramUniformMatrix4fv");
    reveal_strlit("ProgramUniformMatrix4x2dv");
    reveal_strlit("glProgramUniformMatrix4x2dv");
    reveal_strlit("ProgramUniformMatrix4x2fv");
    reveal_strlit("glProgramUniformMatrix4x2fv");
    reveal_strlit("ProgramUniformMatrix4x3dv");
    reveal_strlit("glProgramUniformMatrix4x3dv");
    reveal_strlit("ProgramUniformMatrix4x3fv");
    reveal_strlit("glProgramUniformMatrix4x3fv");
    reveal_strlit("ProvokingVertex");
    reveal_strlit("glProvokingVertex");
    assert(SYMBOLS[336]@ =~= "gl"@ + NAMES[336]@);
    assert(SYMBOLS[337]@ =~= "gl"@ + NAMES[337]@);
    assert(SYMBOLS[338]@ =~= "gl"@ + NAMES[338]@);
    assert(SYMBOLS[339]@ =~= "gl"@ + NAMES[339]@);
    assert(SYMBOLS[340]@ =~= "gl"@ + NAMES[340]@);
    assert(SYMBOLS[341]@ =~= "gl"@ + NAMES[341]@);
    assert(SYMBOLS[342]@ =~= "gl"@ + NAMES[342]@);
    assert(SYMBOLS[343]@ =~= "gl"@ + NAMES[343]@);
    assert(SYMBOLS[344]@ =~= "gl"@ + NAMES[344]@);
    assert(SYMBOLS[345]@ =~= "gl"@ + NAMES[345]@);
    assert(SYMBOLS[346]@ =~= "gl"@ + NAMES[346]@);
    assert(SYMBOLS[347]@ =~= "gl"@ + NAMES[347]@);
    assert(SYMBOLS[348]@ =~= "gl"@ + NAMES[348]@);
    assert(SYMBOLS[349]@ =~= "gl"@ + NAMES[349]@);
    assert(SYMBOLS[350]@ =~= "gl"@ + NAMES[350]@);
    assert(SYMBOLS[351]@ =~= "gl"@ + NAMES[351]@);
}

proof fn lemma_prefixed_352(i: int)
    requires
        352 <= i < 368,
    ensures
        SYMBOLS[i]@ == "gl"@ + NAMES[i]@,
{
    reveal_strlit("gl");
    reveal_strlit("PushDebugGroup");
    reveal_strlit("glPushDebugGroup");
    reveal_strlit("QueryCounter");
    reveal_strlit("glQueryCounter");
    reveal_strlit("ReadBuffer");
    reveal_strlit("glReadBuffer");
    reveal_strlit("ReadPixels");
    reveal_strlit("glReadPixels");
    reveal_strlit("ReleaseShaderCompiler");
    reveal_strlit("glReleaseShaderCompiler");
    reveal_strlit("RenderbufferStorage");
    reveal_strlit("glRenderbufferStorage");
    reveal_strlit("RenderbufferStorageMultisample");
    reveal_strlit("glRenderbufferStorageMultisample");
    reveal_strlit("ResumeTransformFeedback");
    reveal_strlit("glResumeTransformFeedback");
    reveal_strlit("SampleCoverage");
    reveal_strlit("glSampleCoverage");
    reveal_strlit("SampleMaski");
    reveal_strlit("glSampleMaski");
    reveal_strlit("SamplerParameterIiv");
    reveal_strlit("glSamplerParameterIiv");
    reveal_strlit("SamplerParameterIuiv");
    reveal_strlit("glSamplerParameterIuiv");
    reveal_strlit("SamplerParameterf");
    reveal_strlit("glSamplerParameterf");
    reveal_strlit("SamplerParameterfv");
    reveal_strlit("glSamplerParameterfv");
    reveal_strlit("SamplerParameteri");
    reveal_strlit("glSamplerParameteri");
    reveal_strlit("SamplerParameteriv");
    reveal_strlit("glSamplerParameteriv");
    assert(SYMBOLS[352]@ =~= "gl"@ + NAMES[352]@);
    assert(SYMBOLS[353]@ =~= "gl"@ + NAMES[353]@);
    assert(SYMBOLS[354]@ =~= "gl"@ + NAMES[354]@);
    assert(SYMBOLS[355]@ =~= "gl"@ + NAMES[355]@);
    assert(SYMBOLS[356]@ =~= "gl"@ + NAMES[356]@);
    assert(SYMBOLS[357]@ =~= "gl"@ + NAMES[357]@);
    assert(SYMBOLS[358]@ =~= "gl"@ + NAMES[358]@);
    assert(SYMBOLS[359]@ =~= "gl"@ + NAMES[359]@);
    assert(SYMBOLS[360]@ =~= "gl"@ + NAMES[360]@);
    assert(SYMBOLS[361]@ =~= "gl"@ + NAMES[361]@);
    assert(SYMBOLS[362]@ =~= "gl"@ + NAMES[362]@);
    assert(SYMBOLS[363]@ =~= "gl"@ + NAMES[363]@);
    assert(SYMBOLS[364]@ =~= "gl"@ + NAMES[364]@);
    assert(SYMBOLS[365]@ =~= "gl"@ + NAMES[365]@);
    assert(SYMBOLS[366]@ =~= "gl"@ + NAMES[366]@);
    assert(SYMBOLS[367]@ =~= "gl"@ + NAMES[367]@);
}

proof fn lemma_prefixed_368(i: int)
    requires
        368 <= i < 384,
    ensures
        SYMBOLS[i]@ == "gl"@ + NAMES[i]@,
{
    reveal_strlit("gl");
    reveal_strlit("Scissor");
    reveal_strlit("glScissor");
    reveal_strlit("ScissorArrayv");
    reveal_strlit("glScissorArrayv");
    reveal_strlit("ScissorIndexed");
    reveal_strlit("glScissorIndexed");
    reveal_strlit("ScissorIndexedv");
    reveal_strlit("glScissorIndexedv");
    reveal_strlit("SecondaryColorP3ui");
    reveal_strlit("glSecondaryColorP3ui");
    reveal_strlit("SecondaryColorP3uiv");
    reveal_strlit("glSecondaryColorP3uiv");
    reveal_strlit("ShaderBinary");
    reveal_strlit("glShaderBinary");
    reveal_strlit("ShaderSource");
    reveal_strlit("glShaderSource");
    reveal_strlit("ShaderStorageBlockBinding");
    reveal_strlit("glShaderStorageBlockBinding");
    reveal_strlit("StencilFunc");
    reveal_strlit("glStencilFunc");
    reveal_strlit("StencilFuncSeparate");
    reveal_strlit("glStencilFuncSeparate");
    reveal_strlit("StencilMask");
    reveal_strlit("glStencilMask");
    reveal_strlit("StencilMaskSeparate");
    reveal_strlit("glStencilMaskSeparate");
    reveal_strlit("StencilOp");
    reveal_strlit("glStencilOp");
    reveal_strlit("StencilOpSeparate");
    reveal_strlit("glStencilOpSeparate");
    reveal_strlit("TexBuffer");
    reveal_strlit("glTexBuffer");
    assert(SYMBOLS[368]@ =~= "gl"@ + NAMES[368]@);
    assert(SYMBOLS[369]@ =~= "gl"@ + NAMES[369]@);
    assert(SYMBOLS[370]@ =~= "gl"@ + NAMES[370]@);
    assert(SYMBOLS[371]@ =~= "gl"@ + NAMES[371]@);
    assert(SYMBOLS[372]@ =~= "gl"@ + NAMES[372]@);
    assert(SYMBOLS[373]@ =~= "gl"@ + NAMES[373]@);
    assert(SYMBOLS[374]@ =~= "gl"@ + NAMES[374]@);
    assert(SYMBOLS[375]@ =~= "gl"@ + NAMES[375]@);
    assert(SYMBOLS[376]@ =~= "gl"@ + NAMES[376]@);
    assert(SYMBOLS[377]@ =~= "gl"@ + NAMES[377]@);
    assert(SYMBOLS[378]@ =~= "gl"@ + NAMES[378]@);
    assert(SYMBOLS[379]@ =~= "gl"@ + NAMES[379]@);
    assert(SYMBOLS[380]@ =~= "gl"@ + NAMES[380]@);
    assert(SYMBOLS[381]@ =~= "gl"@ + NAMES[381]@);
    assert(SYMBOLS[382]@ =~= "gl"@ + NAMES[382]@);
    assert(SYMBOLS[383]@ =~= "gl"@ + NAMES[383]@);
}

proof fn lemma_prefixed_384(i: int)
    requires
        384 <= i < 400,
    ensures
        SYMBOLS[i]@ == "gl"@ + NAMES[i]@,
{
    reveal_strlit("gl");
    reveal_strlit("TexBufferRange");
    reveal_strlit("glTexBufferRange");
    reveal_strlit("TexCoordP1ui");
    reveal_strlit("glTexCoordP1ui");
    reveal_strlit("TexCoordP1uiv");
    reveal_strlit("glTexCoordP1uiv");
    reveal_strlit("TexCoordP2ui");
    reveal_strlit("glTexCoordP2ui");
    reveal_strlit("TexCoordP2uiv");
    reveal_strlit("glTexCoordP2uiv");
    reveal_strlit("TexCoordP3ui");
    reveal_strlit("glTexCoordP3ui");
    reveal_strlit("TexCoordP3uiv");
    reveal_strlit("glTexCoordP3uiv");
    reveal_strlit("TexCoordP4ui");
    reveal_strlit("glTexCoordP4ui");
    reveal_strlit("TexCoordP4uiv");
    reveal_strlit("glTexCoordP4uiv");
    reveal_strlit("TexImage1D");
    reveal_strlit("glTexImage1D");
    reveal_strlit("TexImage2D");
    reveal_strlit("glTexImage2D");
    reveal_strlit("TexImage2DMultisample");
    reveal_strlit("glTexImage2DMultisample");
    reveal_strlit("TexImage3D");
    reveal_strlit("glTexImage3D");
    reveal_strlit("TexImage3DMultisample");
    reveal_strlit("glTexImage3DMultisample");
    reveal_strlit("TexParameterIiv");
    reveal_strlit("glTexParameterIiv");
    reveal_strlit("TexParameterIuiv");
    reveal_strlit("glTexParameterIuiv");
    assert(SYMBOLS[384]@ =~= "gl"@ + NAMES[384]@);
    assert(SYMBOLS[385]@ =~= "gl"@ + NAMES[385]@);
    assert(SYMBOLS[386]@ =~= "gl"@ + NAMES[386]@);
    assert(SYMBOLS[387]@ =~= "gl"@ + NAMES[387]@);
    assert(SYMBOLS[388]@ =~= "gl"@ + NAMES[388]@);
    assert(SYMBOLS[389]@ =~= "gl"@ + NAMES[389]@);
    assert(SYMBOLS[390]@ =~= "gl"@ + NAMES[390]@);
    assert(SYMBOLS[391]@ =~= "gl"@ + NAMES[391]@);
    assert(SYMBOLS[392]@ =~= "gl"@ + NAMES[392]@);
    assert(SYMBOLS[393]@ =~= "gl"@ + NAMES[393]@);
    assert(SYMBOLS[394]@ =~= "gl"@ + NAMES[394]@);
    assert(SYMBOLS[395]@ =~= "gl"@ + NAMES[395]@);
    assert(SYMBOLS[396]@ =~= "gl"@ + NAMES[396]@);
    assert(SYMBOLS[397]@ =~= "gl"@ + NAMES[397]@);
    assert(SYMBOLS[398]@ =~= "gl"@ + NAMES[398]@);
    assert(SYMBOLS[399]@ =~= "gl"@ + NAMES[399]@);
}

proof fn lemma_prefixed_400(i: int)
    requires
        400 <= i < 416,
    ensures
        SYMBOLS[i]@ == "gl"@ + NAMES[i]@,
{
    reveal_strlit("gl");
    reveal_strlit("TexParameterf");
    reveal_strlit("glTexParameterf");
    reveal_strlit("TexParameterfv");
    reveal_strlit("glTexParameterfv");
    reveal_strlit("TexParameteri");
    reveal_strlit("glTexParameteri");
    reveal_strlit("TexParameteriv");
    reveal_strlit("glTexParameteriv");
    reveal_strlit("TexStorage1D");
    reveal_strlit("glTexStorage1D");
    reveal_strlit("TexStorage2D");
    reveal_strlit("glTexStorage2D");
    reveal_strlit("TexStorage2DMultisample");
    reveal_strlit("glTexStorage2DMultisample");
    reveal_strlit("TexStorage3D");
    reveal_strlit("glTexStorage3D");
    reveal_strlit("TexStorage3DMultisample");
    reveal_strlit("glTexStorage3DMultisample");
    reveal_strlit("TexSubImage1D");
    reveal_strlit("glTexSubImage1D");
    reveal_strlit("TexSubImage2D");
    reveal_strlit("glTexSubImage2D");
    reveal_strlit("TexSubImage3D");
    reveal_strlit("glTexSubImage3D");
    reveal_strlit("TextureView");
    reveal_strlit("glTextureView");
    reveal_strlit("TransformFeedbackVaryings");
    reveal_strlit("glTransformFeedbackVaryings");
    reveal_strlit("Uniform1d");
    reveal_strlit("glUniform1d");
    reveal_strlit("Uniform1dv");
    reveal_strlit("glUniform1dv");
    assert(SYMBOLS[400]@ =~= "gl"@ + NAMES[400]@);
    assert(SYMBOLS[401]@ =~= "gl"@ + NAMES[401]@);
    assert(SYMBOLS[402]@ =~= "gl"@ + NAMES[402]@);
    assert(SYMBOLS[403]@ =~= "gl"@ + NAMES[403]@);
    assert(SYMBOLS[404]@ =~= "gl"@ + NAMES[404]@);
    assert(SYMBOLS[405]@ =~= "gl"@ + NAMES[405]@);
    assert(SYMBOLS[406]@ =~= "gl"@ + NAMES[406]@);
    assert(SYMBOLS[407]@ =~= "gl"@ + NAMES[407]@);
    assert(SYMBOLS[408]@ =~= "gl"@ + NAMES[408]@);
    assert(SYMBOLS[409]@ =~= "gl"@ + NAMES[409]@);
    assert(SYMBOLS[410]@ =~= "gl"@ + NAMES[410]@);
    assert(SYMBOLS[411]@ =~= "gl"@ + NAMES[411]@);
    assert(SYMBOLS[412]@ =~= "gl"@ + NAMES[412]@);
    assert(SYMBOLS[413]@ =~= "gl"@ + NAMES[413]@);
    assert(SYMBOLS[414]@ =~= "gl"@ + NAMES[414]@);
    assert(SYMBOLS[415]@ =~= "gl"@ + NAMES[415]@);
}

proof fn lemma_prefixed_416(i: int)
    requires
        416 <= i < 432,
    ensures
        SYMBOLS[i]@ == "gl"@ + NAMES[i]@,
{
    reveal_strlit("gl");
    reveal_strlit("Uniform1f");
    reveal_strlit("glUniform1f");
    reveal_strlit("Uniform1fv");
    reveal_strlit("glUniform1fv");
    reveal_strlit("Uniform1i");
    reveal_strlit("glUniform1i");
    reveal_strlit("Uniform1iv");
    reveal_strlit("glUniform1iv");
    reveal_strlit("Uniform1ui");
    reveal_strlit("glUniform1ui");
    reveal_strlit("Uniform1uiv");
    reveal_strlit("glUniform1uiv");
    reveal_strlit("Uniform2d");
    reveal_strlit("glUniform2d");
    reveal_strlit("Uniform2dv");
    reveal_strlit("glUniform2dv");
    reveal_strlit("Uniform2f");
    reveal_strlit("glUniform2f");
    reveal_strlit("Uniform2fv");
    reveal_strlit("glUniform2fv");
    reveal_strlit("Uniform2i");
    reveal_strlit("glUniform2i");
    reveal_strlit("Uniform2iv");
    reveal_strlit("glUniform2iv");
    reveal_strlit("Uniform2ui");
    reveal_strlit("glUniform2ui");
    reveal_strlit("Uniform2uiv");
    reveal_strlit("glUniform2uiv");
    reveal_strlit("Uniform3d");
    reveal_strlit("glUniform3d");
    reveal_strlit("Uniform3dv");
    reveal_strlit("glUniform3dv");
    assert(SYMBOLS[416]@ =~= "gl"@ + NAMES[416]@);
    assert(SYMBOLS[417]@ =~= "gl"@ + NAMES[417]@);
    assert(SYMBOLS[418]@ =~= "gl"@ + NAMES[418]@);
    assert(SYMBOLS[419]@ =~= "gl"@ + NAMES[419]@);
    assert(SYMBOLS[420]@ =~= "gl"@ + NAMES[420]@);
    assert(SYMBOLS[421]@ =~= "gl"@ + NAMES[421]@);
    assert(SYMBOLS[422]@ =~= "gl"@ + NAMES[422]@);
    assert(SYMBOLS[423]@ =~= "gl"@ + NAMES[423]@);
    assert(SYMBOLS[424]@ =~= "gl"@ + NAMES[424]@);
    assert(SYMBOLS[425]@ =~= "gl"@ + NAMES[425]@);
    assert(SYMBOLS[426]@ =~= "gl"@ + NAMES[426]@);
    assert(SYMBOLS[427]@ =~= "gl"@ + NAMES[427]@);
    assert(SYMBOLS[428]@ =~= "gl"@ + NAMES[428]@);
    assert(SYMBOLS[429]@ =~= "gl"@ + NAMES[429]@);
    assert(SYMBOLS[430]@ =~= "gl"@ + NAMES[430]@);
    assert(SYMBOLS[431]@ =~= "gl"@ + NAMES[431]@);
}

proof fn lemma_prefixed_432(i: int)
    requires
        432 <= i < 448,
    ensures
        SYMBOLS[i]@ == "gl"@ + NAMES[i]@,
{
    reveal_strlit("gl");
    reveal_strlit("Uniform3f");
    reveal_strlit("glUniform3f");
    reveal_strlit("Uniform3fv");
    reveal_strlit("glUniform3fv");
    reveal_strlit("Uniform3i");
    reveal_strlit("glUniform3i");
    reveal_strlit("Uniform3iv");
    reveal_strlit("glUniform3iv");
    reveal_strlit("Uniform3ui");
    reveal_strlit("glUniform3ui");
    reveal_strlit("Uniform3uiv");
    reveal_strlit("glUniform3uiv");
    reveal_strlit("Uniform4d");
    reveal_strlit("glUniform4d");
    reveal_strlit("Uniform4dv");
    reveal_strlit("glUniform4dv");
    reveal_strlit("Uniform4f");
    reveal_strlit("glUniform4f");
    reveal_strlit("Uniform4fv");
    reveal_strlit("glUniform4fv");
    reveal_strlit("Uniform4i");
    reveal_strlit("glUniform4i");
    reveal_strlit("Uniform4iv");
    reveal_strlit("glUniform4iv");
    reveal_strlit("Uniform4ui");
    reveal_strlit("glUniform4ui");
    reveal_strlit("Uniform4uiv");
    reveal_strlit("glUniform4uiv");
    reveal_strlit("UniformBlockBinding");
    reveal_strlit("glUniformBlockBinding");
    reveal_strlit("UniformMatrix2dv");
    reveal_strlit("glUniformMatrix2dv");
    assert(SYMBOLS[432]@ =~= "gl"@ + NAMES[432]@);
    assert(SYMBOLS[433]@ =~= "gl"@ + NAMES[433]@);
    assert(SYMBOLS[434]@ =~= "gl"@ + NAMES[434]@);
    assert(SYMBOLS[435]@ =~= "gl"@ + NAMES[435]@);
    assert(SYMBOLS[436]@ =~= "gl"@ + NAMES[436]@);
    assert(SYMBOLS[437]@ =~= "gl"@ + NAMES[437]@);
    assert(SYMBOLS[438]@ =~= "gl"@ + NAMES[438]@);
    assert(SYMBOLS[439]@ =~= "gl"@ + NAMES[439]@);
    assert(SYMBOLS[440]@ =~= "gl"@ + NAMES[440]@);
    assert(SYMBOLS[441]@ =~= "gl"@ + NAMES[441]@);
    assert(SYMBOLS[442]@ =~= "gl"@ + NAMES[442]@);
    assert(SYMBOLS[443]@ =~= "gl"@ + NAMES[443]@);
    assert(SYMBOLS[444]@ =~= "gl"@ + NAMES[444]@);
    assert(SYMBOLS[445]@ =~= "gl"@ + NAMES[445]@);
    assert(SYMBOLS[446]@ =~= "gl"@ + NAMES[446]@);
    assert(SYMBOLS[447]@ =~= "gl"@ + NAMES[447]@);
}

proof fn lemma_prefixed_448(i: int)
    requires
        448 <= i < 464,
    ensures
        SYMBOLS[i]@ == "gl"@ + NAMES[i]@,
{
    reveal_strlit("gl");
    reveal_strlit("UniformMatrix2fv");
    reveal_strlit("glUniformMatrix2fv");
    reveal_strlit("UniformMatrix2x3dv");
    reveal_strlit("glUniformMatrix2x3dv");
    reveal_strlit("UniformMatrix2x3fv");
    reveal_strlit("glUniformMatrix2x3fv");
    reveal_strlit("UniformMatrix2x4dv");
    reveal_strlit("glUniformMatrix2x4dv");
    reveal_strlit("UniformMatrix2x4fv");
    reveal_strlit("glUniformMatrix2x4fv");
    reveal_strlit("UniformMatrix3dv");
    reveal_strlit("glUniformMatrix3dv");
    reveal_strlit("UniformMatrix3fv");
    reveal_strlit("glUniformMatrix3fv");
    reveal_strlit("UniformMatrix3x2dv");
    reveal_strlit("glUniformMatrix3x2dv");
    reveal_strlit("UniformMatrix3x2fv");
    reveal_strlit("glUniformMatrix3x2fv");
    reveal_strlit("UniformMatrix3x4dv");
    reveal_strlit("glUniformMatrix3x4dv");
    reveal_strlit("UniformMatrix3x4fv");
    reveal_strlit("glUniformMatrix3x4fv");
    reveal_strlit("UniformMatrix4dv");
    reveal_strlit("glUniformMatrix4dv");
    reveal_strlit("UniformMatrix4fv");
    reveal_strlit("glUniformMatrix4fv");
    reveal_strlit("UniformMatrix4x2dv");
    reveal_strlit("glUniformMatrix4x2dv");
    reveal_strlit("UniformMatrix4x2fv");
    reveal_strlit("glUniformMatrix4x2fv");
    reveal_strlit("UniformMatrix4x3dv");
    reveal_strlit("glUniformMatrix4x3dv");
    assert(SYMBOLS[448]@ =~= "gl"@ + NAMES[448]@);
    assert(SYMBOLS[449]@ =~= "gl"@ + NAMES[449]@);
    assert(SYMBOLS[450]@ =~= "gl"@ + NAMES[450]@);
    assert(SYMBOLS[451]@ =~= "gl"@ + NAMES[451]@);
    assert(SYMBOLS[452]@ =~= "gl"@ + NAMES[452]@);
    assert(SYMBOLS[453]@ =~= "gl"@ + NAMES[453]@);
    assert(SYMBOLS[454]@ =~= "gl"@ + NAMES[454]@);
    assert(SYMBOLS[455]@ =~= "gl"@ + NAMES[455]@);
    assert(SYMBOLS[456]@ =~= "gl"@ + NAMES[456]@);
    assert(SYMBOLS[457]@ =~= "gl"@ + NAMES[457]@);
    assert(SYMBOLS[458]@ =~= "gl"@ + NAMES[458]@);
    assert(SYMBOLS[459]@ =~= "gl"@ + NAMES[459]@);
    assert(SYMBOLS[460]@ =~= "gl"@ + NAMES[460]@);
    assert(SYMBOLS[461]@ =~= "gl"@ + NAMES[461]@);
    assert(SYMBOLS[462]@ =~= "gl"@ + NAMES[462]@);
    assert(SYMBOLS[463]@ =~= "gl"@ + NAMES[463]@);
}

proof fn lemma_prefixed_464(i: int)
    requires
        464 <= i < 480,
    ensures
        SYMBOLS[i]@ == "gl"@ + NAMES[i]@,
{
    reveal_strlit("gl");
    reveal_strlit("UniformMatrix4x3fv");
    reveal_strlit("glUniformMatrix4x3fv");
    reveal_strlit("UniformSubroutinesuiv");
    reveal_strlit("glUniformSubroutinesuiv");
    reveal_strlit("UnmapBuffer");
    reveal_strlit("glUnmapBuffer");
    reveal_strlit("UseProgram");
    reveal_strlit("glUseProgram");
    reveal_strlit("UseProgramStages");
    reveal_strlit("glUseProgramStages");
    reveal_strlit("ValidateProgram");
    reveal_strlit("glValidateProgram");
    reveal_strlit("ValidateProgramPipeline");
    reveal_strlit("glValidateProgramPipeline");
    reveal_strlit("VertexAttrib1d");
    reveal_strlit("glVertexAttrib1d");
    reveal_strlit("VertexAttrib1dv");
    reveal_strlit("glVertexAttrib1dv");
    reveal_strlit("VertexAttrib1f");
    reveal_strlit("glVertexAttrib1f");
    reveal_strlit("VertexAttrib1fv");
    reveal_strlit("glVertexAttrib1fv");
    reveal_strlit("VertexAttrib1s");
    reveal_strlit("glVertexAttrib1s");
    reveal_strlit("VertexAttrib1sv");
    reveal_strlit("glVertexAttrib1sv");
    reveal_strlit("VertexAttrib2d");
    reveal_strlit("glVertexAttrib2d");
    reveal_strlit("VertexAttrib2dv");
    reveal_strlit("glVertexAttrib2dv");
    reveal_strlit("VertexAttrib2f");
    reveal_strlit("glVertexAttrib2f");
    assert(SYMBOLS[464]@ =~= "gl"@ + NAMES[464]@);
    assert(SYMBOLS[465]@ =~= "gl"@ + NAMES[465]@);
    assert(SYMBOLS[466]@ =~= "gl"@ + NAMES[466]@);
    assert(SYMBOLS[467]@ =~= "gl"@ + NAMES[467]@);
    assert(SYMBOLS[468]@ =~= "gl"@ + NAMES[468]@);
    assert(SYMBOLS[469]@ =~= "gl"@ + NAMES[469]@);
    assert(SYMBOLS[470]@ =~= "gl"@ + NAMES[470]@);
    assert(SYMBOLS[471]@ =~= "gl"@ + NAMES[471]@);
    assert(SYMBOLS[472]@ =~= "gl"@ + NAMES[472]@);
    assert(SYMBOLS[473]@ =~= "gl"@ + NAMES[473]@);
    assert(SYMBOLS[474]@ =~= "gl"@ + NAMES[474]@);
    assert(SYMBOLS[475]@ =~= "gl"@ + NAMES[475]@);
    assert(SYMBOLS[476]@ =~= "gl"@ + NAMES[476]@);
    assert(SYMBOLS[477]@ =~= "gl"@ + NAMES[477]@);
    assert(SYMBOLS[478]@ =~= "gl"@ + NAMES[478]@);
    assert(SYMBOLS[479]@ =~= "gl"@ + NAMES[479]@);
}

proof fn lemma_prefixed_480(i: int)
    requires
        480 <= i < 496,
    ensures
        SYMBOLS[i]@ == "gl"@ + NAMES[i]@,
{
    reveal_strlit("gl");
    reveal_strlit("VertexAttrib2fv");
    reveal_strlit("glVertexAttrib2fv");
    reveal_strlit("VertexAttrib2s");
    reveal_strlit("glVertexAttrib2s");
    reveal_strlit("VertexAttrib2sv");
    reveal_strlit("glVertexAttrib2sv");
    reveal_strlit("VertexAttrib3d");
    reveal_strlit("glVertexAttrib3d");
    reveal_strlit("VertexAttrib3dv");
    reveal_strlit("glVertexAttrib3dv");
    reveal_strlit("VertexAttrib3f");
    reveal_strlit("glVertexAttrib3f");
    reveal_strlit("VertexAttrib3fv");
    reveal_strlit("glVertexAttrib3fv");
    reveal_strlit("VertexAttrib3s");
    reveal_strlit("glVertexAttrib3s");
    reveal_strlit("VertexAttrib3sv");
    reveal_strlit("glVertexAttrib3sv");
    reveal_strlit("VertexAttrib4Nbv");
    reveal_strlit("glVertexAttrib4Nbv");
    reveal_strlit("VertexAttrib4Niv");
    reveal_strlit("glVertexAttrib4Niv");
    reveal_strlit("VertexAttrib4Nsv");
    reveal_strlit("glVertexAttrib4Nsv");
    reveal_strlit("VertexAttrib4Nub");
    reveal_strlit("glVertexAttrib4Nub");
    reveal_strlit("VertexAttrib4Nubv");
    reveal_strlit("glVertexAttrib4Nubv");
    reveal_strlit("VertexAttrib4Nuiv");
    reveal_strlit("glVertexAttrib4Nuiv");
    reveal_strlit("VertexAttrib4Nusv");
    reveal_strlit("glVertexAttrib4Nusv");
    assert(SYMBOLS[480]@ =~= "gl"@ + NAMES[480]@);
    assert(SYMBOLS[481]@ =~= "gl"@ + NAMES[481]@);
    assert(SYMBOLS[482]@ =~= "gl"@ + NAMES[482]@);
    assert(SYMBOLS[483]@ =~= "gl"@ + NAMES[483]@);
    assert(SYMBOLS[484]@ =~= "gl"@ + NAMES[484]@);
    assert(SYMBOLS[485]@ =~= "gl"@ + NAMES[485]@);
    assert(SYMBOLS[486]@ =~= "gl"@ + NAMES[486]@);
    assert(SYMBOLS[487]@ =~= "gl"@ + NAMES[487]@);
    assert(SYMBOLS[488]@ =~= "gl"@ + NAMES[488]@);
    assert(SYMBOLS[489]@ =~= "gl"@ + NAMES[489]@);
    assert(SYMBOLS[490]@ =~= "gl"@ + NAMES[490]@);
    assert(SYMBOLS[491]@ =~= "gl"@ + NAMES[491]@);
    assert(SYMBOLS[492]@ =~= "gl"@ + NAMES[492]@);
    assert(SYMBOLS[493]@ =~= "gl"@ + NAMES[493]@);
    assert(SYMBOLS[494]@ =~= "gl"@ + NAMES[494]@);
    assert(SYMBOLS[495]@ =~= "gl"@ + NAMES[495]@);
}

proof fn lemma_prefixed_496(i: int)
    requires
        496 <= i < 512,
    ensures
        SYMBOLS[i]@ == "gl"@ + NAMES[i]@,
{
    reveal_strlit("gl");
    reveal_strlit("VertexAttrib4bv");
    reveal_strlit("glVertexAttrib4bv");
    reveal_strlit("VertexAttrib4d");
    reveal_strlit("glVertexAttrib4d");
    reveal_strlit("VertexAttrib4dv");
    reveal_strlit("glVertexAttrib4dv");
    reveal_strlit("VertexAttrib4f");
    reveal_strlit("glVertexAttrib4f");
    reveal_strlit("VertexAttrib4fv");
    reveal_strlit("glVertexAttrib4fv");
    reveal_strlit("VertexAttrib4iv");
    reveal_strlit("glVertexAttrib4iv");
    reveal_strlit("VertexAttrib4s");
    reveal_strlit("glVertexAttrib4s");
    reveal_strlit("VertexAttrib4sv");
    reveal_strlit("glVertexAttrib4sv");
    reveal_strlit("VertexAttrib4ubv");
    reveal_strlit("glVertexAttrib4ubv");
    reveal_strlit("VertexAttrib4uiv");
    reveal_strlit("glVertexAttrib4uiv");
    reveal_strlit("VertexAttrib4usv");
    reveal_strlit("glVertexAttrib4usv");
    reveal_strlit("VertexAttribBinding");
    reveal_strlit("glVertexAttribBinding");
    reveal_strlit("VertexAttribDivisor");
    reveal_strlit("glVertexAttribDivisor");
    reveal_strlit("VertexAttribFormat");
    reveal_strlit("glVertexAttribFormat");
    reveal_strlit("VertexAttribI1i");
    reveal_strlit("glVertexAttribI1i");
    reveal_strlit("VertexAttribI1iv");
    reveal_strlit("glVertexAttribI1iv");
    assert(SYMBOLS[496]@ =~= "gl"@ + NAMES[496]@);
    assert(SYMBOLS[497]@ =~= "gl"@ + NAMES[497]@);
    assert(SYMBOLS[498]@ =~= "gl"@ + NAMES[498]@);
    assert(SYMBOLS[499]@ =~= "gl"@ + NAMES[499]@);
    assert(SYMBOLS[500]@ =~= "gl"@ + NAMES[500]@);
    assert(SYMBOLS[501]@ =~= "gl"@ + NAMES[501]@);
    assert(SYMBOLS[502]@ =~= "gl"@ + NAMES[502]@);
    assert(SYMBOLS[503]@ =~= "gl"@ + NAMES[503]@);
    assert(SYMBOLS[504]@ =~= "gl"@ + NAMES[504]@);
    assert(SYMBOLS[505]@ =~= "gl"@ + NAMES[505]@);
    assert(SYMBOLS[506]@ =~= "gl"@ + NAMES[506]@);
    assert(SYMBOLS[507]@ =~= "gl"@ + NAMES[507]@);
    assert(SYMBOLS[508]@ =~= "gl"@ + NAMES[508]@);
    assert(SYMBOLS[509]@ =~= "gl"@ + NAMES[509]@);
    assert(SYMBOLS[510]@ =~= "gl"@ + NAMES[510]@);
    assert(SYMBOLS[511]@ =~= "gl"@ + NAMES[511]@);
}

proof fn lemma_prefixed_512(i: int)
    requires
        512 <= i < 528,
    ensures
        SYMBOLS[i]@ == "gl"@ + NAMES[i]@,
{
    reveal_strlit("gl");
    reveal_strlit("VertexAttribI1ui");
    reveal_strlit("glVertexAttribI1ui");
    reveal_strlit("VertexAttribI1uiv");
    reveal_strlit("glVertexAttribI1uiv");
    reveal_strlit("VertexAttribI2i");
    reveal_strlit("glVertexAttribI2i");
    reveal_strlit("VertexAttribI2iv");
    reveal_strlit("glVertexAttribI2iv");
    reveal_strlit("VertexAttribI2ui");
    reveal_strlit("glVertexAttribI2ui");
    reveal_strlit("VertexAttribI2uiv");
    reveal_strlit("glVertexAttribI2uiv");
    reveal_strlit("VertexAttribI3i");
    reveal_strlit("glVertexAttribI3i");
    reveal_strlit("VertexAttribI3iv");
    reveal_strlit("glVertexAttribI3iv");
    reveal_strlit("VertexAttribI3ui");
    reveal_strlit("glVertexAttribI3ui");
    reveal_strlit("VertexAttribI3uiv");
    reveal_strlit("glVertexAttribI3uiv");
    reveal_strlit("VertexAttribI4bv");
    reveal_strlit("glVertexAttribI4bv");
    reveal_strlit("VertexAttribI4i");
    reveal_strlit("glVertexAttribI4i");
    reveal_strlit("VertexAttribI4iv");
    reveal_strlit("glVertexAttribI4iv");
    reveal_strlit("VertexAttribI4sv");
    reveal_strlit("glVertexAttribI4sv");
    reveal_strlit("VertexAttribI4ubv");
    reveal_strlit("glVertexAttribI4ubv");
    reveal_strlit("VertexAttribI4ui");
    reveal_strlit("glVertexAttribI4ui");
    assert(SYMBOLS[512]@ =~= "gl"@ + NAMES[512]@);
    assert(SYMBOLS[513]@ =~= "gl"@ + NAMES[513]@);
    assert(SYMBOLS[514]@ =~= "gl"@ + NAMES[514]@);
    assert(SYMBOLS[515]@ =~= "gl"@ + NAMES[515]@);
    assert(SYMBOLS[516]@ =~= "gl"@ + NAMES[516]@);
    assert(SYMBOLS[517]@ =~= "gl"@ + NAMES[517]@);
    assert(SYMBOLS[518]@ =~= "gl"@ + NAMES[518]@);
    assert(SYMBOLS[519]@ =~= "gl"@ + NAMES[519]@);
    assert(SYMBOLS[520]@ =~= "gl"@ + NAMES[520]@);
    assert(SYMBOLS[521]@ =~= "gl"@ + NAMES[521]@);
    assert(SYMBOLS[522]@ =~= "gl"@ + NAMES[522]@);
    assert(SYMBOLS[523]@ =~= "gl"@ + NAMES[523]@);
    assert(SYMBOLS[524]@ =~= "gl"@ + NAMES[524]@);
    assert(SYMBOLS[525]@ =~= "gl"@ + NAMES[525]@);
    assert(SYMBOLS[526]@ =~= "gl"@ + NAMES[526]@);
    assert(SYMBOLS[527]@ =~= "gl"@ + NAMES[527]@);
}

proof fn lemma_prefixed_528(i: int)
    requires
        528 <= i < 544,
    ensures
        SYMBOLS[i]@ == "gl"@ + NAMES[i]@,
{
    reveal_strlit("gl");
    reveal_strlit("VertexAttribI4uiv");
    reveal_strlit("glVertexAttribI4uiv");
    reveal_strlit("VertexAttribI4usv");
    reveal_strlit("glVertexAttribI4usv");
    reveal_strlit("VertexAttribIFormat");
    reveal_strlit("glVertexAttribIFormat");
    reveal_strlit("VertexAttribIPointer");
    reveal_strlit("glVertexAttribIPointer");
    reveal_strlit("VertexAttribL1d");
    reveal_strlit("glVertexAttribL1d");
    reveal_strlit("VertexAttribL1dv");
    reveal_strlit("glVertexAttribL1dv");
    reveal_strlit("VertexAttribL2d");
    reveal_strlit("glVertexAttribL2d");
    reveal_strlit("VertexAttribL2dv");
    reveal_strlit("glVertexAttribL2dv");
    reveal_strlit("VertexAttribL3d");
    reveal_strlit("glVertexAttribL3d");
    reveal_strlit("VertexAttribL3dv");
    reveal_strlit("glVertexAttribL3dv");
    reveal_strlit("VertexAttribL4d");
    reveal_strlit("glVertexAttribL4d");
    reveal_strlit("VertexAttribL4dv");
    reveal_strlit("glVertexAttribL4dv");
    reveal_strlit("VertexAttribLFormat");
    reveal_strlit("glVertexAttribLFormat");
    reveal_strlit("VertexAttribLPointer");
    reveal_strlit("glVertexAttribLPointer");
    reveal_strlit("VertexAttribP1ui");
    reveal_strlit("glVertexAttribP1ui");
    reveal_strlit("VertexAttribP1uiv");
    reveal_strlit("glVertexAttribP1uiv");
    assert(SYMBOLS[528]@ =~= "gl"@ + NAMES[528]@);
    assert(SYMBOLS[529]@ =~= "gl"@ + NAMES[529]@);
    assert(SYMBOLS[530]@ =~= "gl"@ + NAMES[530]@);
    assert(SYMBOLS[531]@ =~= "gl"@ + NAMES[531]@);
    assert(SYMBOLS[532]@ =~= "gl"@ + NAMES[532]@);
    assert(SYMBOLS[533]@ =~= "gl"@ + NAMES[533]@);
    assert(SYMBOLS[534]@ =~= "gl"@ + NAMES[534]@);
    assert(SYMBOLS[535]@ =~= "gl"@ + NAMES[535]@);
    assert(SYMBOLS[536]@ =~= "gl"@ + NAMES[536]@);
    assert(SYMBOLS[537]@ =~= "gl"@ + NAMES[537]@);
    assert(SYMBOLS[538]@ =~= "gl"@ + NAMES[538]@);
    assert(SYMBOLS[539]@ =~= "gl"@ + NAMES[539]@);
    assert(SYMBOLS[540]@ =~= "gl"@ + NAMES[540]@);
    assert(SYMBOLS[541]@ =~= "gl"@ + NAMES[541]@);
    assert(SYMBOLS[542]@ =~= "gl"@ + NAMES[542]@);
    assert(SYMBOLS[543]@ =~= "gl"@ + NAMES[543]@);
}

proof fn lemma_prefixed_544(i: int)
    requires
        544 <= i < 560,
    ensures
        SYMBOLS[i]@ == "gl"@ + NAMES[i]@,
{
    reveal_strlit("gl");
    reveal_strlit("VertexAttribP2ui");
    reveal_strlit("glVertexAttribP2ui");
    reveal_strlit("VertexAttribP2uiv");
    reveal_strlit("glVertexAttribP2uiv");
    reveal_strlit("VertexAttribP3ui");
    reveal_strlit("glVertexAttribP3ui");
    reveal_strlit("VertexAttribP3uiv");
    reveal_strlit("glVertexAttribP3uiv");
    reveal_strlit("VertexAttribP4ui");
    reveal_strlit("glVertexAttribP4ui");
    reveal_strlit("VertexAttribP4uiv");
    reveal_strlit("glVertexAttribP4uiv");
    reveal_strlit("VertexAttribPointer");
    reveal_strlit("glVertexAttribPointer");
    reveal_strlit("VertexBindingDivisor");
    reveal_strlit("glVertexBindingDivisor");
    reveal_strlit("VertexP2ui");
    reveal_strlit("glVertexP2ui");
    reveal_strlit("VertexP2uiv");
    reveal_strlit("glVertexP2uiv");
    reveal_strlit("VertexP3ui");
    reveal_strlit("glVertexP3ui");
    reveal_strlit("VertexP3uiv");
    reveal_strlit("glVertexP3uiv");
    reveal_strlit("VertexP4ui");
    reveal_strlit("glVertexP4ui");
    reveal_strlit("VertexP4uiv");
    reveal_strlit("glVertexP4uiv");
    reveal_strlit("Viewport");
    reveal_strlit("glViewport");
    reveal_strlit("ViewportArrayv");
    reveal_strlit("glViewportArrayv");
    assert(SYMBOLS[544]@ =~= "gl"@ + NAMES[544]@);
    assert(SYMBOLS[545]@ =~= "gl"@ + NAMES[545]@);
    assert(SYMBOLS[546]@ =~= "gl"@ + NAMES[546]@);
    assert(SYMBOLS[547]@ =~= "gl"@ + NAMES[547]@);
    assert(SYMBOLS[548]@ =~= "gl"@ + NAMES[548]@);
    assert(SYMBOLS[549]@ =~= "gl"@ + NAMES[549]@);
    assert(SYMBOLS[550]@ =~= "gl"@ + NAMES[550]@);
    assert(SYMBOLS[551]@ =~= "gl"@ + NAMES[551]@);
    assert(SYMBOLS[552]@ =~= "gl"@ + NAMES[552]@);
    assert(SYMBOLS[553]@ =~= "gl"@ + NAMES[553]@);
    assert(SYMBOLS[554]@ =~= "gl"@ + NAMES[554]@);
    assert(SYMBOLS[555]@ =~= "gl"@ + NAMES[555]@);
    assert(SYMBOLS[556]@ =~= "gl"@ + NAMES[556]@);
    assert(SYMBOLS[557]@ =~= "gl"@ + NAMES[557]@);
    assert(SYMBOLS[558]@ =~= "gl"@ + NAMES[558]@);
    assert(SYMBOLS[559]@ =~= "gl"@ + NAMES[559]@);
}

proof fn lemma_prefixed_560(i: int)
    requires
        560 <= i < 563,
    ensures
        SYMBOLS[i]@ == "gl"@ + NAMES[i]@,
{
    reveal_strlit("gl");
    reveal_strlit("ViewportIndexedf");
    reveal_strlit("glViewportIndexedf");
    reveal_strlit("ViewportIndexedfv");
    reveal_strlit("glViewportIndexedfv");
    reveal_strlit("WaitSync");
    reveal_strlit("glWaitSync");
    assert(SYMBOLS[560]@ =~= "gl"@ + NAMES[560]@);
    assert(SYMBOLS[561]@ =~= "gl"@ + NAMES[561]@);
    assert(SYMBOLS[562]@ =~= "gl"@ + NAMES[562]@);
}

} // verus!
