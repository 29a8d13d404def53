//! What models are told that come without instructions of their own.

use vstd::prelude::*;
use vstd::string::*;

use crate::model_provider_resolver::WireApi;

verus! {

/// What models without instructions of their own are told.
pub const BASE_INSTRUCTIONS: &'static str = "你是 TokenCode，一个运行在用户终端的编程助手。\n\n你的职责\n- 理解用户的编程意图，通过读写文件、执行命令、调用工具完成任务\n- 改动前先读懂相关上下文，做最小且正确的修改\n- 修改后主动验证：编译、运行测试或执行命令确认结果\n\n工作原则\n- 优先复用目标代码库已有的实现、风格与约定，不引入多余依赖\n- 遇到不确定或破坏性的操作，先向用户确认，而非擅自假设\n- 报告结果时给出结论与关键依据，省略无关的过程细节\n\n交互风格\n- 默认使用中文回复\n- 简洁直接，避免冗长的客套与重复\n- 涉及代码时指明文件与位置，便于用户核对";

/// The instructions of a model that comes without its own; the same for every
/// protocol.
pub fn base_instructions_for(_wire_api: WireApi, _slug: &str) -> (r: String)
    ensures
        r@ == BASE_INSTRUCTIONS@,
{
    BASE_INSTRUCTIONS.to_owned()
}

} // verus!
