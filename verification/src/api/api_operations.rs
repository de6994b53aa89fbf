//! Checks made by the operations before they hand work to the services.
use vstd::prelude::*;
use crate::text::{decimal, push_decimal};

verus! {

/// The error for an empty group of archives.
pub open spec fn spec_empty_group_message() -> Seq<char> {
    "归档文件组不能为空"@
}

/// The error for a group whose number of archives differs from the number
/// of data shards: `第{n}组归档文件数量 ({count}) 与数据分片数 ({shards}) 不匹配`.
pub open spec fn spec_group_size_message(group_number: nat, count: nat, data_shards: nat) -> Seq<char> {
    "第"@ + decimal(group_number) + "组归档文件数量 ("@ + decimal(count) + ") 与数据分片数 ("@
        + decimal(data_shards) + ") 不匹配"@
}

/// Checks the group of archives at position `index` (counted from zero)
/// before recovery files are made for it: a group may not be empty and must
/// hold exactly one archive per data shard.
pub fn validate_archive_group(index: usize, archive_ids: &[i64], data_shards: usize) -> (r: Result<(), String>)
    requires
        index < usize::MAX,
    ensures
        archive_ids@.len() == 0 ==> (r matches Err(m) && m@ == spec_empty_group_message()),
        archive_ids@.len() != 0 && archive_ids@.len() != data_shards ==> (r matches Err(m)
            && m@ == spec_group_size_message(
                (index + 1) as nat,
                archive_ids@.len(),
                data_shards as nat,
            )),
        archive_ids@.len() != 0 && archive_ids@.len() == data_shards ==> r is Ok,
{
    if archive_ids.len() == 0 {
        return Err("归档文件组不能为空".to_owned());
    }
    if archive_ids.len() != data_shards {
        let mut m = "第".to_owned();
        push_decimal(&mut m, (index + 1) as u64);
        m.append("组归档文件数量 (");
        push_decimal(&mut m, archive_ids.len() as u64);
        m.append(") 与数据分片数 (");
        push_decimal(&mut m, data_shards as u64);
        m.append(") 不匹配");
        return Err(m);
    }
    Ok(())
}

} // verus!
