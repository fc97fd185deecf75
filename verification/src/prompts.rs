//! The prompt builders: each renders one request to the language model
//! from the message's fields.  The classification prompt asks for one of
//! the three verdict tokens, the drafting prompt for the reply text
//! (mentioning the attached file when one is given), and the keyword
//! prompt for a comma-separated search-term list.

use vstd::prelude::*;

verus! {

/// The classification prompt around the sender, subject and body.
pub open spec fn classification_prompt_spec(
    from: Seq<char>,
    subject: Seq<char>,
    body: Seq<char>,
) -> Seq<char> {
    "\n    # EXAMPLES\n    ## INPUT EMAIL 1\n\n    From: Emika <emika@example.com>\n    Subject: Attendance Report\n    Body:\n    Hi John,\n\n    Can you provide the Attendance Report for last week?\n\n    Best regards,\n    Emika\n\n    ## OUTPUT 1\n    IS_FILE_REQUEST\n\n    ## INPUT EMAIL 2\n\n    From: Minzi <minzi@example.com>\n    Subject: Attendance Report\n    Body:\n    Tashiro さん\n\n    お疲れ様です。WFMの単です。\n\n    大変恐れ入りますが、今週分の出勤リストをご発送お願いできませんでしょうか。\n\n    以上、どうぞよろしくお願いいたします\n\n    単\n\n    ## OUTPUT 2\n    IS_FILE_REQUEST\n\n    ## INPUT EMAIL 3\n\n    From: Sakamoto <sakamoto@example.com>\n    Subject: 明日の予定の件\n    Body:\n    Johnさん\n\n    お疲れ様です。\n\n    明日の予定を教えていただけないでしょうか。\n\n    何卒よろしくお願いいたします。\n\n    坂本\n\n\n    ## OUTPUT 3\n    YES\n\n    ---\n\n    # WHO YOU ARE\n    You are an AI assistant for John Tashiro. Your task is to analyze an email and determine if it requires a personal reply from John.\n\n    ---\n\n    # INSTRUCTIONS\n    The input email will come in email format.\n\n    Expected output: YES, NO, or IS_FILE_REQUEST\n    - YES // When the analyzed email requires a personal reply from John.\n    - NO // When the analyzed email doesn't require a personal reply from John. When it's a test email. When the email is just thanking John. When the email.\n    - IS_FILE_REQUEST // When the analyzed email requires a personal reply from John and requires a file attachment.\n\n    ---\n\n    # INPUT EMAIL\n\n    From: "@ + from + "\n    Subject: "@ + subject + "\n    Body: "@ + body + "\n\n    "@
}

/// Render the classification prompt.
pub fn get_classification_prompt(from: &str, subject: &str, body: &str) -> (r: String)
    ensures
        r@ == classification_prompt_spec(from@, subject@, body@),
{
    let mut r = String::new();
    r.append("\n    # EXAMPLES\n    ## INPUT EMAIL 1\n\n    From: Emika <emika@example.com>\n    Subject: Attendance Report\n    Body:\n    Hi John,\n\n    Can you provide the Attendance Report for last week?\n\n    Best regards,\n    Emika\n\n    ## OUTPUT 1\n    IS_FILE_REQUEST\n\n    ## INPUT EMAIL 2\n\n    From: Minzi <minzi@example.com>\n    Subject: Attendance Report\n    Body:\n    Tashiro さん\n\n    お疲れ様です。WFMの単です。\n\n    大変恐れ入りますが、今週分の出勤リストをご発送お願いできませんでしょうか。\n\n    以上、どうぞよろしくお願いいたします\n\n    単\n\n    ## OUTPUT 2\n    IS_FILE_REQUEST\n\n    ## INPUT EMAIL 3\n\n    From: Sakamoto <sakamoto@example.com>\n    Subject: 明日の予定の件\n    Body:\n    Johnさん\n\n    お疲れ様です。\n\n    明日の予定を教えていただけないでしょうか。\n\n    何卒よろしくお願いいたします。\n\n    坂本\n\n\n    ## OUTPUT 3\n    YES\n\n    ---\n\n    # WHO YOU ARE\n    You are an AI assistant for John Tashiro. Your task is to analyze an email and determine if it requires a personal reply from John.\n\n    ---\n\n    # INSTRUCTIONS\n    The input email will come in email format.\n\n    Expected output: YES, NO, or IS_FILE_REQUEST\n    - YES // When the analyzed email requires a personal reply from John.\n    - NO // When the analyzed email doesn't require a personal reply from John. When it's a test email. When the email is just thanking John. When the email.\n    - IS_FILE_REQUEST // When the analyzed email requires a personal reply from John and requires a file attachment.\n\n    ---\n\n    # INPUT EMAIL\n\n    From: ");
    r.append(from);
    r.append("\n    Subject: ");
    r.append(subject);
    r.append("\n    Body: ");
    r.append(body);
    r.append("\n\n    ");
    proof {
        assert(r@ =~= classification_prompt_spec(from@, subject@, body@));
    }
    r
}

/// The drafting prompt around the message's fields; when a file is to be
/// attached, the prompt carries an extra example, an extra instruction and
/// the file's name.
pub open spec fn drafting_prompt_spec(
    from: Seq<char>,
    subject: Seq<char>,
    body: Seq<char>,
    file_path: Option<Seq<char>>,
) -> Seq<char> {
    "\n    # EXAMPLES\n    ## OUTPUT EMAIL 1 (INTERNAL - SCHEDULING)\n\n    From: Sakamoto <sakamoto@example.com>\n    Subject: 明日の予定の件\n    Body: Johnさん お疲れ様です。明日の予定を教えていただけないでしょうか。\n    坂本さん\n\n    お疲れ様です。\n\n    明日の午前はクライアントMTGがありますので、午後でしたら空いております。13時からの30分はいかがでしょうか。\n\n    何卒よろしくお願いいたします。\n\n    John\n\n    ---\n\n    ## OUTPUT EMAIL 2 (INTERNAL - CONTEXTUAL)\n\n    From: Emika <emika@example.com>\n    Subject: A6への周知の件\n    Body: Johnさん お疲れ様です。この件、A6で周知してもらえますか？\n    Emikaさん\n\n    お疲れ様です。\n\n    承知いたしました。\n    A6チームに周知します。\n\n    何卒よろしくお願いいたします。\n\n    John\n\n    ---\n\n    ## OUTPUT EMAIL 3 (EXTERNAL)\n\n    From: 鈴木 <suzuki@example.com>\n    Subject: ご提案の件\n    Body: John Tashiro様 お世話になっております。株式会社鈴木の鈴木です。先日のご提案についてですが...\n    鈴木様\n\n    お世話になっております。\n\n    ご提案いただき、誠にありがとうございます。\n    内容を検討の上、改めてご連絡させていただきます。\n\n    何卒よろしくお願いいたします。\n\n    John\n\n    ---\n\n    ## OUTPUT EMAIL 4 (ENGLISH)\n\n    From: Jane Doe <jane.doe@example.com>\n    Subject: Quick question\n    Body: Hi John, Hope you are well. Just had a quick question about the report.\n    Hi Jane,\n\n    Thanks for reaching out. I'm happy to help. What's your question about the report?\n\n    Best regards,\n    John\n    "@ + (if file_path is Some {
        "\n            ---\n\n            ## OUTPUT EMAIL 5 (WITH ATTACHMENT)\n\n            From: Emika <emika@example.com>\n            Subject: Attendance Report\n            Body: Hi John, Can you provide the Attendance Report for last week?\n            Attached File: /path/to/Attendance-Report.pdf\n            Hi Emika,\n\n            Thanks for reaching out.\n\n            Please find the attendance report for last week attached.\n\n            Best regards,\n            John\n            "@
    } else {
        Seq::<char>::empty()
    }) + "\n\n    ---\n\n    # WHO YOU ARE\n    You are an AI assistant for John Tashiro. Your task is to draft a polite and professional reply to the following email. Keep the reply concise and helpful.\n\n    ---\n\n    # INSTRUCTIONS\n    You will draft an email based on the received email's body. Use the following specifics section as a basis to properly form a draft email.\n\n    ## SPECIFICS:\n\n    ### GENERAL\n    - Sign off as 'John'.\n    - No need to create a draft for 'test' emails (e.g., containing 'It's a test', 'Test 1', 'Test2', 'テスト', 'テストです！').\n    - **CONTEXT**: \"A6\" refers to a team. In a Japanese reply, use \"A6チーム\".\n    "@ + (if file_path is Some {
        "- If a file is attached, state in the email body that the file is attached (e.g., \"Please find the file attached.\"). Do not say you will send it later."@
    } else {
        Seq::<char>::empty()
    }) + "\n\n    ### ENGLISH EMAILS\n    - Use the sender's first name with a friendly opening (e.g., \"Hi Jane,\").\n    - **BODY**: Do not add extra blank lines between sentences.\n    - Use a friendly closing (e.g., \"Best,\").\n\n    ### JAPANESE EMAILS\n    - **ADDRESSING THE SENDER:**\n        - Use their last name. If it's in Kanji, use Kanji. If it's in Romaji, use Romaji.\n        - Append `様` for **external** contacts (e.g., `鈴木様`, `Tanaka様`). An external contact is someone who addresses John with `様`.\n        - Append `さん` for **internal** colleagues (e.g., `坂本さん`, `Yamashita-san`). An internal colleague is someone who does NOT address John with `様`.\n\n    - **OPENING GREETING:**\n        - For **external** contacts, use a formal opening like `お世話になっております。`. DO NOT use `お疲れ様です。`.\n        - For **internal** colleagues, if they wrote `お疲れ様です`, also use `お疲れ様です。` in the reply. Place it on a **new line** after the salutation, with a blank line in between.\n\n    - **BODY:**\n        - Do not add extra blank lines between sentences in the body. The body should be a single block of text.\n    - **CLOSING:**\n        - The closing should be `何卒よろしくお願いいたします。` with `John` on a new line after a blank line.\n\n    ---\n\n    # INPUT EMAIL\n    - From: "@ + from + "\n    - Subject: "@ + subject + "\n    - Body: "@ + body + "\n    EMAIL DRAFT\n    "@ + (match file_path {
        Some(p) => "- Attached File: "@ + p + "\n"@,
        None => Seq::<char>::empty(),
    }) + "\n\n    "@
}

/// Render the drafting prompt.
pub fn get_drafting_prompt(
    from: &str,
    subject: &str,
    body: &str,
    file_path: Option<String>,
) -> (r: String)
    ensures
        r@ == drafting_prompt_spec(
            from@,
            subject@,
            body@,
            match file_path {
                Some(p) => Some(p@),
                None => None,
            },
        ),
{
    let mut r = String::new();
    r.append("\n    # EXAMPLES\n    ## OUTPUT EMAIL 1 (INTERNAL - SCHEDULING)\n\n    From: Sakamoto <sakamoto@example.com>\n    Subject: 明日の予定の件\n    Body: Johnさん お疲れ様です。明日の予定を教えていただけないでしょうか。\n    坂本さん\n\n    お疲れ様です。\n\n    明日の午前はクライアントMTGがありますので、午後でしたら空いております。13時からの30分はいかがでしょうか。\n\n    何卒よろしくお願いいたします。\n\n    John\n\n    ---\n\n    ## OUTPUT EMAIL 2 (INTERNAL - CONTEXTUAL)\n\n    From: Emika <emika@example.com>\n    Subject: A6への周知の件\n    Body: Johnさん お疲れ様です。この件、A6で周知してもらえますか？\n    Emikaさん\n\n    お疲れ様です。\n\n    承知いたしました。\n    A6チームに周知します。\n\n    何卒よろしくお願いいたします。\n\n    John\n\n    ---\n\n    ## OUTPUT EMAIL 3 (EXTERNAL)\n\n    From: 鈴木 <suzuki@example.com>\n    Subject: ご提案の件\n    Body: John Tashiro様 お世話になっております。株式会社鈴木の鈴木です。先日のご提案についてですが...\n    鈴木様\n\n    お世話になっております。\n\n    ご提案いただき、誠にありがとうございます。\n    内容を検討の上、改めてご連絡させていただきます。\n\n    何卒よろしくお願いいたします。\n\n    John\n\n    ---\n\n    ## OUTPUT EMAIL 4 (ENGLISH)\n\n    From: Jane Doe <jane.doe@example.com>\n    Subject: Quick question\n    Body: Hi John, Hope you are well. Just had a quick question about the report.\n    Hi Jane,\n\n    Thanks for reaching out. I'm happy to help. What's your question about the report?\n\n    Best regards,\n    John\n    ");
    if file_path.is_some() {
        r.append("\n            ---\n\n            ## OUTPUT EMAIL 5 (WITH ATTACHMENT)\n\n            From: Emika <emika@example.com>\n            Subject: Attendance Report\n            Body: Hi John, Can you provide the Attendance Report for last week?\n            Attached File: /path/to/Attendance-Report.pdf\n            Hi Emika,\n\n            Thanks for reaching out.\n\n            Please find the attendance report for last week attached.\n\n            Best regards,\n            John\n            ");
    }
    r.append("\n\n    ---\n\n    # WHO YOU ARE\n    You are an AI assistant for John Tashiro. Your task is to draft a polite and professional reply to the following email. Keep the reply concise and helpful.\n\n    ---\n\n    # INSTRUCTIONS\n    You will draft an email based on the received email's body. Use the following specifics section as a basis to properly form a draft email.\n\n    ## SPECIFICS:\n\n    ### GENERAL\n    - Sign off as 'John'.\n    - No need to create a draft for 'test' emails (e.g., containing 'It's a test', 'Test 1', 'Test2', 'テスト', 'テストです！').\n    - **CONTEXT**: \"A6\" refers to a team. In a Japanese reply, use \"A6チーム\".\n    ");
    if file_path.is_some() {
        r.append("- If a file is attached, state in the email body that the file is attached (e.g., \"Please find the file attached.\"). Do not say you will send it later.");
    }
    r.append("\n\n    ### ENGLISH EMAILS\n    - Use the sender's first name with a friendly opening (e.g., \"Hi Jane,\").\n    - **BODY**: Do not add extra blank lines between sentences.\n    - Use a friendly closing (e.g., \"Best,\").\n\n    ### JAPANESE EMAILS\n    - **ADDRESSING THE SENDER:**\n        - Use their last name. If it's in Kanji, use Kanji. If it's in Romaji, use Romaji.\n        - Append `様` for **external** contacts (e.g., `鈴木様`, `Tanaka様`). An external contact is someone who addresses John with `様`.\n        - Append `さん` for **internal** colleagues (e.g., `坂本さん`, `Yamashita-san`). An internal colleague is someone who does NOT address John with `様`.\n\n    - **OPENING GREETING:**\n        - For **external** contacts, use a formal opening like `お世話になっております。`. DO NOT use `お疲れ様です。`.\n        - For **internal** colleagues, if they wrote `お疲れ様です`, also use `お疲れ様です。` in the reply. Place it on a **new line** after the salutation, with a blank line in between.\n\n    - **BODY:**\n        - Do not add extra blank lines between sentences in the body. The body should be a single block of text.\n    - **CLOSING:**\n        - The closing should be `何卒よろしくお願いいたします。` with `John` on a new line after a blank line.\n\n    ---\n\n    # INPUT EMAIL\n    - From: ");
    r.append(from);
    r.append("\n    - Subject: ");
    r.append(subject);
    r.append("\n    - Body: ");
    r.append(body);
    r.append("\n    EMAIL DRAFT\n    ");
    if let Some(p) = &file_path {
        r.append("- Attached File: ");
        r.append(p.as_str());
        r.append("\n");
    }
    r.append("\n\n    ");
    proof {
        assert(r@ =~= drafting_prompt_spec(
            from@,
            subject@,
            body@,
            match file_path {
                Some(p) => Some(p@),
                None => None,
            },
        ));
    }
    r
}

/// The search-keyword prompt around the body.
pub open spec fn search_keywords_prompt_spec(body: Seq<char>) -> Seq<char> {
    "\n        # EXAMPLES\n        ## INPUT EMAIL 1\n\n        From: Emika <emika@example.com>\n        Subject: Attendance Report\n        Body:\n        Hi John,\n\n        Can you provide the Attendance Report for last week?\n\n        Best regards,\n        Emika\n\n        ## OUTPUT 1\n        Attendance,Attendance Report,Appearance,出勤,出社,勤怠\n\n        ---\n\n        ## INPUT EMAIL 2\n\n        From: Minzi <minzi@example.com>\n        Subject: 【TPJP/DAWN】先週分の出勤表の共有について\n        Body:\n        Tashiro さん\n\n        お疲れ様です。WFMの単です。\n\n        大変恐れ入りますが、今週分の出勤リストをご発送お願いできませんでしょうか。\n\n        以上、どうぞよろしくお願いいたします\n\n        単\n\n        ## OUTPUT 2\n        Attendance,Attendance Report,Coverage,Coverage Report,Coverage,Coverage Plan,Appearance,出勤,出社,勤怠\n\n        ---\n\n        ## INPUT EMAIL 2\n\n        From: Minzi <minzi@example.com>\n        Subject: 【TPJP/DAWN】先週分の出勤表の共有について\n        Body:\n        Johnさん\n\n        お疲れ様です、\n\n        先週分のAttendance/Coverage Planのシートをご送付いただけませんでしょうか。\n\n        お手数をおかけまして申し訳ございません\n\n        Best Regards！\n        Minzi Shan\n\n        ## OUTPUT 3\n        Attendance,Attendance Report,Coverage,Coverage Report,Coverage,Coverage Plan,Appearance,出勤,出社,勤怠\n\n        ---\n\n        # INSTRUCTIONS\n        Analyze the INPUT EMAIL BODY and generate a comma-separated list of keywords based on the following rules:\n        1. **Identify the core request**: Extract the essential file name or topic (e.g., \"Attendance Report\").\n        2. **Generate Semantic Keywords**: Include conceptually related English words and synonyms (e.g., \"Appearance\").\n        3. **Generate Multilingual Keywords**: Include relevant Japanese translations and synonyms, as shown in the example (e.g., \"出勤\", \"勤怠\").\n        4. **Format the Output**: Combine all keywords into a single line, separated only by commas. Do not include labels, explanations, or any text other than the keywords themselves.\n\n        ---\n\n        # INPUT EMAIL BODY        Body: "@ + body + "\n        "@
}

/// Render the search-keyword prompt.
pub fn get_search_keywords_prompt(body: &str) -> (r: String)
    ensures
        r@ == search_keywords_prompt_spec(body@),
{
    let mut r = String::new();
    r.append("\n        # EXAMPLES\n        ## INPUT EMAIL 1\n\n        From: Emika <emika@example.com>\n        Subject: Attendance Report\n        Body:\n        Hi John,\n\n        Can you provide the Attendance Report for last week?\n\n        Best regards,\n        Emika\n\n        ## OUTPUT 1\n        Attendance,Attendance Report,Appearance,出勤,出社,勤怠\n\n        ---\n\n        ## INPUT EMAIL 2\n\n        From: Minzi <minzi@example.com>\n        Subject: 【TPJP/DAWN】先週分の出勤表の共有について\n        Body:\n        Tashiro さん\n\n        お疲れ様です。WFMの単です。\n\n        大変恐れ入りますが、今週分の出勤リストをご発送お願いできませんでしょうか。\n\n        以上、どうぞよろしくお願いいたします\n\n        単\n\n        ## OUTPUT 2\n        Attendance,Attendance Report,Coverage,Coverage Report,Coverage,Coverage Plan,Appearance,出勤,出社,勤怠\n\n        ---\n\n        ## INPUT EMAIL 2\n\n        From: Minzi <minzi@example.com>\n        Subject: 【TPJP/DAWN】先週分の出勤表の共有について\n        Body:\n        Johnさん\n\n        お疲れ様です、\n\n        先週分のAttendance/Coverage Planのシートをご送付いただけませんでしょうか。\n\n        お手数をおかけまして申し訳ございません\n\n        Best Regards！\n        Minzi Shan\n\n        ## OUTPUT 3\n        Attendance,Attendance Report,Coverage,Coverage Report,Coverage,Coverage Plan,Appearance,出勤,出社,勤怠\n\n        ---\n\n        # INSTRUCTIONS\n        Analyze the INPUT EMAIL BODY and generate a comma-separated list of keywords based on the following rules:\n        1. **Identify the core request**: Extract the essential file name or topic (e.g., \"Attendance Report\").\n        2. **Generate Semantic Keywords**: Include conceptually related English words and synonyms (e.g., \"Appearance\").\n        3. **Generate Multilingual Keywords**: Include relevant Japanese translations and synonyms, as shown in the example (e.g., \"出勤\", \"勤怠\").\n        4. **Format the Output**: Combine all keywords into a single line, separated only by commas. Do not include labels, explanations, or any text other than the keywords themselves.\n\n        ---\n\n        # INPUT EMAIL BODY        Body: ");
    r.append(body);
    r.append("\n        ");
    proof {
        assert(r@ =~= search_keywords_prompt_spec(body@));
    }
    r
}

} // verus!
